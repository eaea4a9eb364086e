use std::sync::mpsc;
use std::sync::mpsc::Sender;

use factotum_server::dispatcher::{Dispatcher, Query};

#[test]
fn create_new_dispatcher() {
    let dispatcher = Dispatcher::new(10, 2);

    assert_eq!(dispatcher.max_jobs, 10);
    assert_eq!(dispatcher.max_workers, 2);
    assert!(dispatcher.requests_queue.is_empty());
}

#[test]
fn create_new_queries_same_name_different_sender_still_equal() {
    let (tx1, _) = mpsc::channel::<String>();
    let (tx2, _) = mpsc::channel::<String>();
    let query_one: Query<Sender<String>> = Query::new("dummy_query", tx1);
    let query_two: Query<Sender<String>> = Query::new("dummy_query", tx2);
    assert!(query_one == query_two);
}

#[test]
fn create_new_queries_same_name_same_sender_still_equal() {
    let (tx, _) = mpsc::channel::<String>();
    let query_one: Query<Sender<String>> = Query::new("dummy_query", tx.clone());
    let query_two: Query<Sender<String>> = Query::new("dummy_query", tx.clone());
    assert!(query_one == query_two);
}

#[test]
fn create_new_queries_different_name_different_sender_is_not_equal() {
    let (tx1, _) = mpsc::channel::<String>();
    let (tx2, _) = mpsc::channel::<String>();
    let query_one: Query<Sender<String>> = Query::new("dummy_query_one", tx1);
    let query_two: Query<Sender<String>> = Query::new("dummy_query_two", tx2);
    assert!(query_one != query_two);
}

#[test]
fn create_new_queries_different_name_same_sender_is_not_equal() {
    let (tx, _) = mpsc::channel::<String>();
    let query_one: Query<Sender<String>> = Query::new("dummy_query_one", tx.clone());
    let query_two: Query<Sender<String>> = Query::new("dummy_query_two", tx.clone());
    assert!(query_one != query_two);
}
