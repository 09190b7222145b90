use mcr_settlement_client::{
    BatchStatus, BlockCommitment, Commitment, Id, McrSettlementClient, PostStatus,
    SettlementError, StreamPoll, BRIDGE_CAPACITY,
};

fn at_height(height: u64) -> BlockCommitment {
    BlockCommitment { height, block_id: Default::default(), commitment: Commitment::test() }
}

fn marked(height: u64, mark: u8) -> BlockCommitment {
    BlockCommitment { height, block_id: Id([mark; 32]), commitment: Commitment([mark; 32]) }
}

#[test]
fn test_post_block_commitment() {
    let mut client = McrSettlementClient::new();
    let commitment = BlockCommitment {
        height: 1,
        block_id: Default::default(),
        commitment: Commitment::test(),
    };
    client.post_block_commitment(commitment.clone()).unwrap();
    assert_eq!(client.get_commitment_at_height(1).unwrap(), Some(commitment));
}

#[test]
fn test_post_block_commitment_batch() {
    let mut client = McrSettlementClient::new();
    let commitment = BlockCommitment {
        height: 1,
        block_id: Default::default(),
        commitment: Commitment::test(),
    };
    let commitment2 = BlockCommitment {
        height: 2,
        block_id: Default::default(),
        commitment: Commitment::test(),
    };
    client
        .post_block_commitment_batch(vec![commitment.clone(), commitment2.clone()])
        .unwrap();
    assert_eq!(client.get_commitment_at_height(1).unwrap(), Some(commitment));
    assert_eq!(client.get_commitment_at_height(2).unwrap(), Some(commitment2));
}

#[test]
fn test_stream_block_commitments() {
    let mut client = McrSettlementClient::new();
    let commitment = BlockCommitment {
        height: 1,
        block_id: Default::default(),
        commitment: Commitment::test(),
    };
    client.post_block_commitment(commitment.clone()).unwrap();
    let mut stream = client.stream_block_commitments().unwrap();
    match client.next_commitment(&mut stream) {
        StreamPoll::Ready(item) => assert_eq!(item.unwrap(), commitment),
        other => panic!("expected a commitment, got {:?}", other),
    }
}

#[test]
fn post_is_answered_posted_while_there_is_room() {
    let mut client = McrSettlementClient::new();
    assert_eq!(client.post_block_commitment(marked(1, 0xb1)), Ok(PostStatus::Posted));
    assert_eq!(client.get_commitment_at_height(1), Ok(Some(marked(1, 0xb1))));
}

#[test]
fn batch_of_two_is_retrievable_by_height() {
    let mut client = McrSettlementClient::new();
    let outcome = client.post_block_commitment_batch(vec![marked(1, 0xb1), marked(2, 0xb2)]);
    assert_eq!(outcome, Ok(BatchStatus::Posted));
    assert_eq!(client.get_commitment_at_height(1), Ok(Some(marked(1, 0xb1))));
    assert_eq!(client.get_commitment_at_height(2), Ok(Some(marked(2, 0xb2))));
}

#[test]
fn stream_opened_after_a_post_yields_it_first() {
    let mut client = McrSettlementClient::new();
    client.post_block_commitment(marked(1, 0xb1)).unwrap();
    let mut stream = client.stream_block_commitments().unwrap();
    assert_eq!(client.next_commitment(&mut stream), StreamPoll::Ready(Ok(marked(1, 0xb1))));
}

#[test]
fn stream_waits_until_a_post_then_yields_it() {
    let mut client = McrSettlementClient::new();
    let mut stream = client.stream_block_commitments().unwrap();
    assert_eq!(client.next_commitment(&mut stream), StreamPoll::Pending);
    assert_eq!(client.next_commitment(&mut stream), StreamPoll::Pending);
    assert!(!stream.is_ended());
    client.post_block_commitment(marked(7, 0x77)).unwrap();
    assert_eq!(client.next_commitment(&mut stream), StreamPoll::Ready(Ok(marked(7, 0x77))));
    assert_eq!(client.next_commitment(&mut stream), StreamPoll::Pending);
}

#[test]
fn lookup_of_a_height_never_posted_is_empty() {
    let mut client = McrSettlementClient::new();
    assert_eq!(client.get_commitment_at_height(0), Ok(None));
    client.post_block_commitment(at_height(1)).unwrap();
    assert_eq!(client.get_commitment_at_height(2), Ok(None));
    assert_eq!(client.get_commitment_at_height(u64::MAX), Ok(None));
}

#[test]
fn later_post_at_a_height_replaces_the_earlier() {
    let mut client = McrSettlementClient::new();
    client.post_block_commitment(marked(5, 1)).unwrap();
    client.post_block_commitment(marked(6, 9)).unwrap();
    client.post_block_commitment(marked(5, 2)).unwrap();
    assert_eq!(client.get_commitment_at_height(5), Ok(Some(marked(5, 2))));
    assert_eq!(client.get_commitment_at_height(6), Ok(Some(marked(6, 9))));
}

#[test]
fn later_commitment_of_a_batch_replaces_the_earlier() {
    let mut client = McrSettlementClient::new();
    let outcome =
        client.post_block_commitment_batch(vec![marked(5, 1), marked(6, 9), marked(5, 2)]);
    assert_eq!(outcome, Ok(BatchStatus::Posted));
    assert_eq!(client.get_commitment_at_height(5), Ok(Some(marked(5, 2))));
    assert_eq!(client.get_commitment_at_height(6), Ok(Some(marked(6, 9))));
}

#[test]
fn batch_with_distinct_heights_is_retrievable_in_full() {
    let mut client = McrSettlementClient::new();
    let batch: Vec<BlockCommitment> = (0..8u8).map(|i| marked(100 + u64::from(i), i)).collect();
    assert_eq!(client.post_block_commitment_batch(batch.clone()), Ok(BatchStatus::Posted));
    for commitment in batch {
        assert_eq!(client.get_commitment_at_height(commitment.height), Ok(Some(commitment)));
    }
}

#[test]
fn empty_batch_is_posted_and_changes_nothing() {
    let mut client = McrSettlementClient::new();
    assert_eq!(client.post_block_commitment_batch(Vec::new()), Ok(BatchStatus::Posted));
    let mut stream = client.stream_block_commitments().unwrap();
    assert_eq!(client.next_commitment(&mut stream), StreamPoll::Pending);
    client.close();
    assert_eq!(client.post_block_commitment_batch(Vec::new()), Ok(BatchStatus::Posted));
}

#[test]
fn subscriber_receives_posts_in_post_order() {
    let mut client = McrSettlementClient::new();
    let mut stream = client.stream_block_commitments().unwrap();
    client.post_block_commitment(marked(3, 3)).unwrap();
    client.post_block_commitment(marked(1, 1)).unwrap();
    assert_eq!(client.next_commitment(&mut stream), StreamPoll::Ready(Ok(marked(3, 3))));
    client.post_block_commitment(marked(2, 2)).unwrap();
    client.post_block_commitment(marked(1, 4)).unwrap();
    assert_eq!(client.next_commitment(&mut stream), StreamPoll::Ready(Ok(marked(1, 1))));
    assert_eq!(client.next_commitment(&mut stream), StreamPoll::Ready(Ok(marked(2, 2))));
    assert_eq!(client.next_commitment(&mut stream), StreamPoll::Ready(Ok(marked(1, 4))));
    assert_eq!(client.next_commitment(&mut stream), StreamPoll::Pending);
}

#[test]
fn received_commitment_is_already_in_the_store() {
    let mut client = McrSettlementClient::new();
    let mut stream = client.stream_block_commitments().unwrap();
    client.post_block_commitment(marked(9, 1)).unwrap();
    match client.next_commitment(&mut stream) {
        StreamPoll::Ready(Ok(seen)) => {
            assert_eq!(client.get_commitment_at_height(seen.height), Ok(Some(seen)));
        },
        other => panic!("expected a commitment, got {:?}", other),
    }
}

#[test]
fn two_handles_share_one_stream() {
    let mut client = McrSettlementClient::new();
    let mut first = client.stream_block_commitments().unwrap();
    let mut second = client.stream_block_commitments().unwrap();
    client.post_block_commitment_batch(vec![marked(1, 1), marked(2, 2), marked(3, 3)]).unwrap();
    assert_eq!(client.next_commitment(&mut second), StreamPoll::Ready(Ok(marked(1, 1))));
    assert_eq!(client.next_commitment(&mut first), StreamPoll::Ready(Ok(marked(2, 2))));
    assert_eq!(client.next_commitment(&mut second), StreamPoll::Ready(Ok(marked(3, 3))));
    assert_eq!(client.next_commitment(&mut first), StreamPoll::Pending);
    assert_eq!(client.next_commitment(&mut second), StreamPoll::Pending);
}

#[test]
fn post_beyond_capacity_is_suspended_until_a_pull() {
    assert_eq!(BRIDGE_CAPACITY, 10);
    let mut client = McrSettlementClient::new();
    for height in 0..10u64 {
        assert_eq!(client.post_block_commitment(at_height(height)), Ok(PostStatus::Posted));
    }
    let late = marked(10, 0xaa);
    assert_eq!(client.post_block_commitment(late), Ok(PostStatus::Suspended));
    assert_eq!(client.get_commitment_at_height(10), Ok(Some(late)));
    assert_eq!(client.post_block_commitment(late), Ok(PostStatus::Suspended));

    let mut stream = client.stream_block_commitments().unwrap();
    assert_eq!(client.next_commitment(&mut stream), StreamPoll::Ready(Ok(at_height(0))));
    assert_eq!(client.post_block_commitment(late), Ok(PostStatus::Posted));
    assert_eq!(client.post_block_commitment(at_height(11)), Ok(PostStatus::Suspended));
    for height in 1..10u64 {
        assert_eq!(client.next_commitment(&mut stream), StreamPoll::Ready(Ok(at_height(height))));
    }
    assert_eq!(client.next_commitment(&mut stream), StreamPoll::Ready(Ok(late)));
    assert_eq!(client.next_commitment(&mut stream), StreamPoll::Pending);
}

#[test]
fn batch_beyond_capacity_is_suspended_at_the_first_that_finds_no_room() {
    let mut client = McrSettlementClient::new();
    client.post_block_commitment(at_height(1000)).unwrap();
    let batch: Vec<BlockCommitment> = (0..12u64).map(at_height).collect();
    assert_eq!(client.post_block_commitment_batch(batch.clone()), Ok(BatchStatus::SuspendedAt(9)));
    for height in 0..=9u64 {
        assert_eq!(client.get_commitment_at_height(height), Ok(Some(at_height(height))));
    }
    assert_eq!(client.get_commitment_at_height(10), Ok(None));
    assert_eq!(client.get_commitment_at_height(11), Ok(None));

    let mut stream = client.stream_block_commitments().unwrap();
    assert_eq!(client.next_commitment(&mut stream), StreamPoll::Ready(Ok(at_height(1000))));
    for height in 0..9u64 {
        assert_eq!(client.next_commitment(&mut stream), StreamPoll::Ready(Ok(at_height(height))));
    }
    assert_eq!(client.next_commitment(&mut stream), StreamPoll::Pending);
    assert_eq!(client.post_block_commitment_batch(batch[9..].to_vec()), Ok(BatchStatus::Posted));
    for height in 9..12u64 {
        assert_eq!(client.next_commitment(&mut stream), StreamPoll::Ready(Ok(at_height(height))));
    }
    assert_eq!(client.get_commitment_at_height(11), Ok(Some(at_height(11))));
}

#[test]
fn batch_that_fills_the_bridge_exactly_is_posted() {
    let mut client = McrSettlementClient::new();
    let batch: Vec<BlockCommitment> = (0..10u64).map(at_height).collect();
    assert_eq!(client.post_block_commitment_batch(batch), Ok(BatchStatus::Posted));
    assert_eq!(
        client.post_block_commitment_batch(vec![at_height(10)]),
        Ok(BatchStatus::SuspendedAt(0))
    );
    assert_eq!(client.get_commitment_at_height(10), Ok(Some(at_height(10))));
}

#[test]
fn post_to_a_closed_bridge_fails_and_still_writes_the_store() {
    let mut client = McrSettlementClient::new();
    client.close();
    assert_eq!(client.post_block_commitment(marked(4, 4)), Err(SettlementError::ChannelClosed));
    assert_eq!(client.get_commitment_at_height(4), Ok(Some(marked(4, 4))));
}

#[test]
fn closed_bridge_fails_before_full_bridge_suspends() {
    let mut client = McrSettlementClient::new();
    let batch: Vec<BlockCommitment> = (0..10u64).map(at_height).collect();
    client.post_block_commitment_batch(batch).unwrap();
    client.close();
    assert_eq!(client.post_block_commitment(at_height(10)), Err(SettlementError::ChannelClosed));
}

#[test]
fn batch_stops_at_the_first_failure_without_rollback() {
    let mut client = McrSettlementClient::new();
    client.post_block_commitment(marked(1, 1)).unwrap();
    client.close();
    let outcome = client.post_block_commitment_batch(vec![marked(2, 2), marked(3, 3)]);
    assert_eq!(outcome, Err(SettlementError::ChannelClosed));
    assert_eq!(client.get_commitment_at_height(1), Ok(Some(marked(1, 1))));
    assert_eq!(client.get_commitment_at_height(2), Ok(Some(marked(2, 2))));
    assert_eq!(client.get_commitment_at_height(3), Ok(None));
}

#[test]
fn stream_ends_once_a_closed_bridge_is_drained() {
    let mut client = McrSettlementClient::new();
    let mut stream = client.stream_block_commitments().unwrap();
    client.post_block_commitment_batch(vec![marked(1, 1), marked(2, 2)]).unwrap();
    client.close();
    assert_eq!(client.next_commitment(&mut stream), StreamPoll::Ready(Ok(marked(1, 1))));
    assert!(!stream.is_ended());
    assert_eq!(client.next_commitment(&mut stream), StreamPoll::Ready(Ok(marked(2, 2))));
    assert!(!stream.is_ended());
    assert_eq!(client.next_commitment(&mut stream), StreamPoll::Ended);
    assert!(stream.is_ended());
    assert_eq!(client.next_commitment(&mut stream), StreamPoll::Ended);
}

#[test]
fn stream_cannot_be_opened_on_a_closed_and_drained_bridge() {
    let mut client = McrSettlementClient::new();
    client.post_block_commitment(marked(1, 1)).unwrap();
    client.close();
    let mut stream = client.stream_block_commitments().unwrap();
    assert_eq!(client.next_commitment(&mut stream), StreamPoll::Ready(Ok(marked(1, 1))));
    match client.stream_block_commitments() {
        Err(error) => assert_eq!(error, SettlementError::ChannelClosed),
        Ok(_) => panic!("a drained, closed bridge handed out a stream"),
    }
}

#[test]
fn stream_can_be_opened_on_an_open_and_empty_bridge() {
    let client = McrSettlementClient::new();
    let stream = client.stream_block_commitments().unwrap();
    assert!(!stream.is_ended());
}

#[test]
fn closing_twice_is_closing_once() {
    let mut client = McrSettlementClient::new();
    client.post_block_commitment(marked(1, 1)).unwrap();
    client.close();
    client.close();
    let mut stream = client.stream_block_commitments().unwrap();
    assert_eq!(client.next_commitment(&mut stream), StreamPoll::Ready(Ok(marked(1, 1))));
    assert_eq!(client.next_commitment(&mut stream), StreamPoll::Ended);
}
