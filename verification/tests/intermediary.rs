//! Pairs of independently advancing sessions.

use bytes::Bytes;
use pg_proto::grammar::{backend, frontend};
use pg_proto::intermediary::SessionPair;
use pg_proto::pipeline::BoundedPipeline;

#[derive(Debug)]
struct Clean;

#[test]
fn each_side_transitions_without_coupling_the_other() {
    let downstream: backend::TypedSession<(), backend::Ready, Clean> =
        backend::TypedSession::with_transport(());
    let upstream: frontend::TypedSession<(), frontend::Ready, Clean> =
        frontend::TypedSession::with_transport(());
    let intermediary = SessionPair::new(downstream, upstream);

    let (intermediary, downstream_query) = intermediary
        .transition_downstream(|session| {
            session.query(Bytes::from_static(b"select 1"), |(), query| {
                ((), Ok::<_, &'static str>(query))
            })
        })
        .expect("downstream inspection succeeds");
    assert_eq!(downstream_query, Bytes::from_static(b"select 1"));

    let (intermediary, upstream_query) = intermediary
        .transition_upstream(|session| {
            session.query(Bytes::from_static(b"select 2"), |(), query| {
                ((), Ok::<_, &'static str>(query))
            })
        })
        .expect("upstream inspection succeeds");
    assert_eq!(upstream_query, Bytes::from_static(b"select 2"));

    let (_downstream, _upstream): (
        backend::TypedSession<(), backend::Simple, backend::Dirty>,
        frontend::TypedSession<(), frontend::Simple, frontend::Dirty>,
    ) = intermediary.into_parts();
}

#[test]
fn rejected_transition_reconstructs_both_original_sides() {
    let intermediary = SessionPair::new(vec![1_u8], vec![2_u8]);
    let (intermediary, error) = intermediary
        .transition_downstream(|downstream| Err::<(Vec<u8>, ()), _>((downstream, "reject")))
        .unwrap_err();
    assert_eq!(error, "reject");
    assert_eq!(intermediary.into_parts(), (vec![1], vec![2]));
}

#[test]
fn policy_can_modify_or_replace_a_message() {
    let pair = SessionPair::new(Vec::<Bytes>::new(), Vec::<Bytes>::new());
    let (pair, rewritten) = pair.inspect(
        Bytes::from_static(b"select secret"),
        |mut downstream: Vec<Bytes>, mut upstream: Vec<Bytes>, query: Bytes| {
            downstream.push(query);
            upstream.push(Bytes::from_static(b"select public"));
            (
                downstream,
                upstream,
                Ok::<_, std::convert::Infallible>(Bytes::from_static(b"select public")),
            )
        },
    );
    assert_eq!(rewritten.unwrap(), Bytes::from_static(b"select public"));
    assert_eq!(pair.downstream().len(), 1);
    assert_eq!(pair.upstream().len(), 1);
}

#[test]
fn a_pair_takes_a_pipeline_policy() {
    let pair = SessionPair::new(1_u8, 2_u8)
        .with_pipeline(BoundedPipeline::new(4).expect("a positive limit"));
    assert!(pair.pipeline().is_empty());
    assert_eq!(pair.into_parts(), (1, 2));
}
