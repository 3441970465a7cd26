use renovate_gitea_sharding::distributor::{Dispatch, Distributor};
use renovate_gitea_sharding::repo::{Repo, Repos};

fn repos(names: &[&str]) -> Repos {
    Repos(names.iter().map(|name| Repo::new(name.to_string())).collect())
}

/// Asks the distributor until it says to close; gives the names it sent.
fn drain(distributor: &mut Distributor) -> Vec<String> {
    let mut sent = Vec::new();
    loop {
        match distributor.next() {
            Dispatch::Send(repo) => sent.push(repo.to_string()),
            Dispatch::Close => return sent,
            Dispatch::Finished => panic!("the queue was not closed yet"),
        }
    }
}

#[test]
fn in_order_sends_in_order_then_closes_once() {
    let mut distributor = Distributor::in_order(repos(&["a/1", "b/2", "c/3"]));
    assert_eq!(distributor.remaining(), 3);
    assert_eq!(distributor.next(), Dispatch::Send(Repo::new("a/1".to_string())));
    assert_eq!(distributor.remaining(), 2);
    assert_eq!(distributor.next(), Dispatch::Send(Repo::new("b/2".to_string())));
    assert_eq!(distributor.next(), Dispatch::Send(Repo::new("c/3".to_string())));
    assert_eq!(distributor.remaining(), 0);
    assert_eq!(distributor.next(), Dispatch::Close);
    assert_eq!(distributor.next(), Dispatch::Finished);
    assert_eq!(distributor.next(), Dispatch::Finished);
    assert_eq!(distributor.remaining(), 0);
}

#[test]
fn nothing_to_send_closes_at_once() {
    let mut distributor = Distributor::new(repos(&[]));
    assert_eq!(distributor.remaining(), 0);
    assert_eq!(distributor.next(), Dispatch::Close);
    assert_eq!(distributor.next(), Dispatch::Finished);
}

#[test]
fn shuffled_order_sends_every_repository_once() {
    let names = ["a/1", "b/2", "c/3", "d/4", "e/5", "f/6", "g/7"];
    for _ in 0..50 {
        let mut distributor = Distributor::new(repos(&names));
        assert_eq!(distributor.remaining(), names.len());
        let mut sent = drain(&mut distributor);
        assert_eq!(sent.len(), names.len());
        sent.sort();
        assert_eq!(sent, names);
        assert_eq!(distributor.next(), Dispatch::Finished);
    }
}

#[test]
fn shuffled_order_keeps_repeated_names() {
    let names = ["a/1", "a/1", "b/2", "a/1", "b/2"];
    let mut distributor = Distributor::new(repos(&names));
    let mut sent = drain(&mut distributor);
    sent.sort();
    assert_eq!(sent, vec!["a/1", "a/1", "a/1", "b/2", "b/2"]);
}

#[test]
fn single_repository_is_sent_then_closed() {
    let mut distributor = Distributor::new(repos(&["only/one"]));
    assert_eq!(distributor.next(), Dispatch::Send(Repo::new("only/one".to_string())));
    assert_eq!(distributor.next(), Dispatch::Close);
}

#[test]
fn shuffle_changes_the_order() {
    let names = ["a/1", "b/2", "c/3", "d/4", "e/5", "f/6", "g/7", "h/8"];
    let mut changed = 0;
    for _ in 0..40 {
        let mut distributor = Distributor::new(repos(&names));
        if drain(&mut distributor) != names {
            changed += 1;
        }
    }
    // One order in 40320 is the order of the input.
    assert!(changed >= 30);
}

#[test]
fn every_position_is_about_equally_likely() {
    let names = ["a/1", "b/2", "c/3", "d/4"];
    let runs = 4000;
    let mut seen = [0u32; 4];
    for _ in 0..runs {
        let mut distributor = Distributor::new(repos(&names));
        let sent = drain(&mut distributor);
        let position = sent.iter().position(|name| name == "a/1").unwrap();
        seen[position] += 1;
    }
    // Each position is expected 1000 times, with a deviation of about 27.
    for count in seen {
        assert!(count > 800 && count < 1200, "positions of a/1: {:?}", seen);
    }
}
