use ibc::context::mock_client_type;
use ibc::context::MockContext;
use ibc::errors::RelayerError;
use ibc::height::Height;
use ibc::identifier::ChainId;
use ibc::identifier::ClientId;
use ibc::identifier::Signer;
use ibc::relayer::build_client_update_datagram;
use ibc::relayer::ClientMsg;
use ibc::relayer::MsgEnvelope;
use ibc::relayer::RelayerContext;
use ibc::tendermint::client_type as tm_client_type;

/// Implements a "ping pong" of client update messages, so that two chains
/// repeatedly process a client update message and update their height in
/// succession.
#[test]
fn client_update_ping_pong() {
    let chain_a_start_height = Height::new(1, 11).unwrap();
    let chain_b_start_height = Height::new(1, 20).unwrap();
    let client_on_b_for_a_height = Height::new(1, 10).unwrap(); // Should be smaller than `chain_a_start_height`
    let client_on_a_for_b_height = Height::new(1, 20).unwrap(); // Should be smaller than `chain_b_start_height`
    let num_iterations: usize = 4;

    let client_on_a_for_b = ClientId::new(tm_client_type(), 0);
    let client_on_b_for_a = ClientId::new(mock_client_type(), 0);

    let chain_id_a = ChainId::new("mockgaiaA".to_string(), 1);
    let chain_id_b = ChainId::new("mockgaiaB".to_string(), 1);

    // Create two contexts, one for each chain.
    let mut ctx_a = MockContext::new(
        chain_id_a.clone(),
        chain_a_start_height,
        Signer::new("signer-a".to_string()),
    )
    .with_client(chain_id_b.clone(), &client_on_a_for_b, client_on_a_for_b_height);
    let mut ctx_b = MockContext::new(
        chain_id_b,
        chain_b_start_height,
        Signer::new("signer-b".to_string()),
    )
    .with_client(chain_id_a, &client_on_b_for_a, client_on_b_for_a_height);

    for _i in 0..num_iterations {
        // Update client on chain B to latest height of A.
        // - create the client update message with the latest header from A
        let a_latest_header = ctx_a.query_latest_header().unwrap();
        let client_msg_b_res =
            build_client_update_datagram(&ctx_b, &client_on_b_for_a, &a_latest_header);

        assert!(
            client_msg_b_res.is_ok(),
            "create_client_update failed for context destination {ctx_b:?}, error: {client_msg_b_res:?}",
        );

        let client_msg_b = client_msg_b_res.unwrap();

        // - send the message to B, directly into the context's dispatch.
        let dispatch_res_b = ctx_b.deliver(MsgEnvelope::Client(client_msg_b));
        let validation_res = ctx_b.validate();
        assert!(
            validation_res.is_ok(),
            "context validation failed with error {validation_res:?} for context {ctx_b:?}",
        );

        // Check if the update succeeded.
        assert!(
            dispatch_res_b.is_ok(),
            "Dispatch failed for host chain b with error: {dispatch_res_b:?}"
        );
        let client_height_b = ctx_b
            .query_client_full_state(&client_on_b_for_a)
            .unwrap()
            .latest_height();
        assert_eq!(client_height_b, ctx_a.query_latest_height().unwrap());

        // Update client on chain A to latest height of B.
        // - create the client update message with the latest header from B,
        // retargeting the trusted height onto the previous block.
        let mut b_latest_header = ctx_b.query_latest_header().unwrap();

        let th = b_latest_header.height();
        b_latest_header.set_trusted_height(th.decrement().unwrap());

        let client_msg_a_res =
            build_client_update_datagram(&ctx_a, &client_on_a_for_b, &b_latest_header);

        assert!(
            client_msg_a_res.is_ok(),
            "create_client_update failed for context destination {ctx_a:?}, error: {client_msg_a_res:?}",
        );

        let client_msg_a = client_msg_a_res.unwrap();

        // - send the message to A
        let dispatch_res_a = ctx_a.deliver(MsgEnvelope::Client(client_msg_a));
        let validation_res = ctx_a.validate();
        assert!(
            validation_res.is_ok(),
            "context validation failed with error {validation_res:?} for context {ctx_a:?}",
        );

        // Check if the update succeeded.
        assert!(
            dispatch_res_a.is_ok(),
            "Dispatch failed for host chain a with error: {dispatch_res_a:?}"
        );
        let client_height_a = ctx_a
            .query_client_full_state(&client_on_a_for_b)
            .unwrap()
            .latest_height();
        assert_eq!(client_height_a, ctx_b.query_latest_height().unwrap());
    }
}

fn two_chains() -> (MockContext, MockContext, ClientId, ClientId) {
    let chain_id_a = ChainId::new("mockgaiaA".to_string(), 1);
    let chain_id_b = ChainId::new("mockgaiaB".to_string(), 1);
    let client_on_a_for_b = ClientId::new(tm_client_type(), 0);
    let client_on_b_for_a = ClientId::new(mock_client_type(), 0);
    let ctx_a = MockContext::new(
        chain_id_a.clone(),
        Height::new(1, 11).unwrap(),
        Signer::new("signer-a".to_string()),
    )
    .with_client(chain_id_b.clone(), &client_on_a_for_b, Height::new(1, 20).unwrap());
    let ctx_b = MockContext::new(
        chain_id_b,
        Height::new(1, 20).unwrap(),
        Signer::new("signer-b".to_string()),
    )
    .with_client(chain_id_a, &client_on_b_for_a, Height::new(1, 10).unwrap());
    (ctx_a, ctx_b, client_on_a_for_b, client_on_b_for_a)
}

/// An update decision repeated against an unchanged destination that is
/// already at the source header's height reports "already up to date" both
/// times.
#[test]
fn update_already_up_to_date_twice() {
    let (ctx_a, _ctx_b, client_on_a_for_b, _client_on_b_for_a) = two_chains();
    // The client on A already tracks exactly this height.
    let header = ibc::header::Header::new(
        Height::new(1, 20).unwrap(),
        Height::new(1, 19).unwrap(),
        20,
        Vec::new(),
        Vec::new(),
        Vec::new());
    for _round in 0..2 {
        let res = build_client_update_datagram(&ctx_a, &client_on_a_for_b, &header);
        match res {
            Err(RelayerError::ClientAlreadyUpToDate {
                source_height,
                destination_height,
                ..
            }) => {
                assert_eq!(source_height, Height::new(1, 20).unwrap());
                assert_eq!(destination_height, Height::new(1, 20).unwrap());
            }
            other => panic!("expected ClientAlreadyUpToDate, got {other:?}"),
        }
    }
}

/// A destination already ahead of the presented header reports "at higher
/// height" and its state is left untouched.
#[test]
fn update_rejected_on_regression() {
    let (mut ctx_a, _ctx_b, client_on_a_for_b, _client_on_b_for_a) = two_chains();
    // The client on A tracks (1, 20); present an older header at (1, 15).
    let header = ibc::header::Header::new(
        Height::new(1, 15).unwrap(),
        Height::new(1, 14).unwrap(),
        15,
        Vec::new(),
        Vec::new(),
        Vec::new());
    let res = build_client_update_datagram(&ctx_a, &client_on_a_for_b, &header);
    match res {
        Err(RelayerError::ClientAtHigherHeight { source_height, destination_height, .. }) => {
            assert_eq!(source_height, Height::new(1, 15).unwrap());
            assert_eq!(destination_height, Height::new(1, 20).unwrap());
        }
        other => panic!("expected ClientAtHigherHeight, got {other:?}"),
    }
    // Forcing a message through dispatch is refused too, without mutation;
    // the header claims the stored consensus height so the height check is
    // what refuses it.
    let old_header = ibc::header::Header::new(
        Height::new(1, 15).unwrap(),
        Height::new(1, 20).unwrap(),
        15,
        Vec::new(),
        Vec::new(),
        Vec::new());
    let msg = ibc::relayer::MsgUpdateClient {
        client_id: client_on_a_for_b.clone(),
        header: old_header,
        signer: Signer::new("signer-a".to_string()),
    };
    let before_height = ctx_a
        .query_client_full_state(&client_on_a_for_b)
        .unwrap()
        .latest_height();
    let before_latest = ctx_a.query_latest_height().unwrap();
    let dispatch_res = ctx_a.deliver(MsgEnvelope::Client(ClientMsg::UpdateClient(msg)));
    assert!(matches!(
        dispatch_res,
        Err(ibc::errors::ClientError::HeaderNotNewer { .. })
    ));
    let after_height = ctx_a
        .query_client_full_state(&client_on_a_for_b)
        .unwrap()
        .latest_height();
    assert_eq!(before_height, after_height);
    assert_eq!(before_latest, ctx_a.query_latest_height().unwrap());
}

/// An update decision against an unknown client id reports "client state
/// not found" and carries the id back.
#[test]
fn update_unknown_client_not_found() {
    let (ctx_a, _ctx_b, _client_on_a_for_b, _client_on_b_for_a) = two_chains();
    let stranger = ClientId::new(tm_client_type(), 7);
    let header = ibc::header::Header::new(
        Height::new(1, 25).unwrap(),
        Height::new(1, 24).unwrap(),
        25,
        Vec::new(),
        Vec::new(),
        Vec::new());
    let res = build_client_update_datagram(&ctx_a, &stranger, &header);
    match res {
        Err(RelayerError::ClientStateNotFound { client_id }) => {
            assert_eq!(client_id.counter, 7);
            assert_eq!(client_id.client_type.as_str(), "07-tendermint");
        }
        other => panic!("expected ClientStateNotFound, got {other:?}"),
    }
}

/// A header whose trusted height matches no stored consensus state is
/// refused with the explicit mismatch error.
#[test]
fn update_trusted_height_mismatch() {
    let (mut ctx_a, _ctx_b, client_on_a_for_b, _client_on_b_for_a) = two_chains();
    // The only consensus state for the client on A sits at (1, 20).
    let header = ibc::header::Header::new(
        Height::new(1, 25).unwrap(),
        Height::new(1, 22).unwrap(),
        25,
        Vec::new(),
        Vec::new(),
        Vec::new());
    let msg = ibc::relayer::MsgUpdateClient {
        client_id: client_on_a_for_b.clone(),
        header,
        signer: Signer::new("signer-a".to_string()),
    };
    let dispatch_res = ctx_a.deliver(MsgEnvelope::Client(ClientMsg::UpdateClient(msg)));
    match dispatch_res {
        Err(ibc::errors::ClientError::TrustedHeightMismatch { trusted_height }) => {
            assert_eq!(trusted_height, Height::new(1, 22).unwrap());
        }
        other => panic!("expected TrustedHeightMismatch, got {other:?}"),
    }
}
