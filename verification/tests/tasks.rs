//! Tests of the bookkeeping of outgoing handshakes.

use std::sync::Arc;

use iroh_hyde_auth::peers::{answer_all, Pending, RemoteSet, Request};
use iroh_hyde_auth::table::Table;
use iroh_hyde_auth::{outgoing, Error, InstitutionalSigner, OutgoingAuthTask};

const X: [u8; 32] = [1; 32];
const Y: [u8; 32] = [2; 32];

#[derive(Debug, Clone)]
struct NoKey;

impl InstitutionalSigner for NoKey {
    fn verifying_key(&self) -> Vec<u8> {
        vec![]
    }

    fn sign(&mut self, _: &[u8]) -> Result<Vec<u8>, Error> {
        Err(Error::Signer("no key".to_string()))
    }
}

fn task() -> OutgoingAuthTask<NoKey, u32> {
    outgoing(NoKey).1
}

#[test]
fn concurrent_requests_share_one_handshake() {
    let mut task = task();
    assert!(matches!(task.handle_request(&X, 1), Request::Dial));
    assert!(matches!(task.handle_request(&X, 2), Request::Wait));
    assert!(matches!(task.handle_request(&Y, 3), Request::Dial));
    assert!(matches!(task.handle_request(&X, 4), Request::Wait));
    assert!(task.dialer().sign(b"").is_err());
    assert!(task.signer_mut().sign(b"").is_err());

    let answers = task.handle_completion(&X, &Ok(()));
    let waiters: Vec<u32> = answers.iter().map(|(w, _)| *w).collect();
    assert_eq!(waiters, [1, 2, 4]);
    assert!(answers.iter().all(|(_, r)| r.is_ok()));
    // Nobody is told twice.
    assert!(task.handle_completion(&X, &Ok(())).is_empty());
}

#[test]
fn success_is_cached_per_remote() {
    let mut task = task();
    assert!(matches!(task.handle_request(&X, 1), Request::Dial));
    task.handle_completion(&X, &Ok(()));
    assert!(matches!(task.handle_request(&X, 2), Request::Admit(2)));
    assert!(matches!(task.handle_request(&X, 3), Request::Admit(3)));
    assert!(matches!(task.handle_request(&Y, 4), Request::Dial));
}

#[test]
fn failure_is_told_and_not_cached() {
    let mut task = task();
    assert!(matches!(task.handle_request(&X, 1), Request::Dial));
    assert!(matches!(task.handle_request(&X, 2), Request::Wait));
    let failed = Err(Arc::new(Error::ClockSkew));
    let answers = task.handle_completion(&X, &failed);
    assert_eq!(answers.len(), 2);
    for (_, answer) in answers {
        assert!(matches!(*answer.unwrap_err(), Error::ClockSkew));
    }
    assert!(matches!(task.handle_request(&X, 3), Request::Dial));
}

#[test]
fn waiters_keep_their_order() {
    let mut pending = Pending::new();
    assert!(pending.enqueue(&X, 'a'));
    assert!(pending.enqueue(&Y, 'b'));
    assert!(!pending.enqueue(&X, 'c'));
    assert_eq!(pending.take(&X), ['a', 'c']);
    assert!(pending.take(&X).is_empty());
    assert_eq!(pending.take(&Y), ['b']);
    let answers = answer_all(vec![1, 2], &Ok(()));
    assert_eq!(answers.len(), 2);
}

#[test]
fn remotes_are_told_apart() {
    let mut set = RemoteSet::new();
    assert!(!set.contains(&X));
    set.insert(&X);
    set.insert(&X);
    assert!(set.contains(&X));
    assert!(!set.contains(&Y));
}

#[test]
fn tables_replace_and_remove() {
    let mut table: Table<u8> = Table::new();
    table.insert(vec![1], 10);
    table.insert(vec![2], 20);
    table.insert(vec![3], 30);
    table.insert(vec![2], 21);
    assert_eq!(table.len(), 3);
    assert_eq!(table.get(&[2]), Some(&21));
    assert_eq!(table.remove(&[1]), Some(10));
    assert_eq!(table.remove(&[1]), None);
    assert_eq!((table.len(), table.get(&[3]), table.contains(&[1])), (2, Some(&30), false));
    assert_eq!(table.clone().get(&[2]), Some(&21));
}
