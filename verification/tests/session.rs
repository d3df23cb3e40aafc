use coeus::packet::{DeployAccepted, DeployRequest, Packet, DEPLOY_REQUEST_KIND};
use coeus::session::{
    client_outcome, connection_step, expect_response, server_action, ClientError, ConnectionStep,
    ServerAction, ACCEPTED_MESSAGE,
};

fn request(rev: &str) -> Packet {
    Packet::DeployRequest(Box::new(DeployRequest {
        rev: rev.into(),
        dry_run: true,
        clean_substituters: false,
    }))
}

#[test]
fn sends_and_listens_concurrently_through_the_client_api() {
    // The client's request reaches the daemon ...
    let sent: Packet = DeployRequest {
        rev: "abc123".into(),
        dry_run: true,
        clean_substituters: false,
    }
    .into();
    let reply = match connection_step(Some(sent)) {
        ConnectionStep::Handle(Packet::DeployRequest(request)) => {
            assert_eq!(request.rev, "abc123");
            DeployAccepted {
                message: "accepted".into(),
            }
        }
        _ => panic!("unexpected request"),
    };
    // ... and the daemon's acceptance is what the client handles.
    let answer = expect_response(Some(reply.into())).unwrap();
    assert_eq!(client_outcome(answer), Ok("accepted".to_string()));
}

#[test]
fn daemon_accepts_then_deploys_requests() {
    match server_action(request("main")) {
        ServerAction::Deploy { reply, request } => {
            assert_eq!(reply.message, ACCEPTED_MESSAGE);
            assert_eq!(reply.message, "deploy request accepted");
            assert_eq!(request.rev, "main");
        }
        ServerAction::Ignore(_) => panic!("a deploy request must be deployed"),
    }
    let accepted = Packet::DeployAccepted(Box::new(DeployAccepted {
        message: "x".into(),
    }));
    assert!(matches!(server_action(accepted), ServerAction::Ignore(Packet::DeployAccepted(_))));
}

#[test]
fn daemon_stops_when_the_peer_closes() {
    assert!(matches!(connection_step(None), ConnectionStep::Close));
}

#[test]
fn client_needs_an_acceptance() {
    assert!(matches!(expect_response(None), Err(ClientError::ServerClosed)));
    assert_eq!(
        client_outcome(request("main")),
        Err(ClientError::UnexpectedPacket(DEPLOY_REQUEST_KIND))
    );
}
