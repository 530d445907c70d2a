use sailor::address::{IpAddress, SocketAddress};
use sailor::application::Application;
use sailor::configuration::{CoreConfiguration, CurrentConfiguration};
use sailor::control::{
    handle_message, on_connection_event, ConnectionAction, ConnectionEvent, Message, Reply,
    Request, Response,
};

fn local(port: u16) -> SocketAddress {
    SocketAddress { ip: IpAddress::V4(0x7f00_0001), port }
}

fn app(hostname: &str, port: u16) -> Application {
    Application { hostname: hostname.to_string(), address: local(port) }
}

fn empty() -> CurrentConfiguration {
    CurrentConfiguration::new(CoreConfiguration { port: 4250 })
}

#[test]
fn get_applications_on_empty_registry() {
    let (reply, publish) =
        handle_message(&empty(), Message { id: 7, request: Request::GetApplications });
    assert_eq!(
        reply,
        Reply { regarding: 7, response: Response::Applications { applications: vec![] } }
    );
    assert!(publish.is_none());
}

#[test]
fn messages_and_replies_compare_by_content() {
    let m = Message { id: 1, request: Request::DeleteApplication { hostname: "a".to_string() } };
    assert_eq!(m.clone(), m);
    assert_ne!(m, Message { id: 2, request: m.request.clone() });
    assert_ne!(m.request, Request::DeleteApplication { hostname: "b".to_string() });
    assert_ne!(Request::Status, Request::GetApplications);
    let r = Reply {
        regarding: 3,
        response: Response::Status { port: 1, applications: vec![app("a.test", 9001)] },
    };
    assert_eq!(r.clone(), r);
    assert_ne!(
        r.response,
        Response::Status { port: 1, applications: vec![app("a.test", 9002)] }
    );
    assert_ne!(r.response, Response::Applications { applications: vec![app("a.test", 9001)] });
}

#[test]
fn create_application_succeeds_and_publishes() {
    let (reply, publish) = handle_message(
        &empty(),
        Message { id: 1, request: Request::CreateApplication { application: app("a.test", 9001) } },
    );
    assert_eq!(reply.regarding, 1);
    assert!(matches!(reply.response, Response::Success));
    let next = publish.unwrap();
    assert_eq!(next.core.port, 4250);
    assert_eq!(next.applications, vec![app("a.test", 9001)]);
}

#[test]
fn create_existing_application_is_an_error() {
    let c = empty().create(app("a.test", 9001)).unwrap();
    let (reply, publish) = handle_message(
        &c,
        Message { id: 2, request: Request::CreateApplication { application: app("a.test", 9002) } },
    );
    assert_eq!(reply.regarding, 2);
    match reply.response {
        Response::Error { message } => {
            assert_eq!(message, "application with this hostname already exists!")
        }
        other => panic!("unexpected response {other:?}"),
    }
    assert!(publish.is_none());
}

#[test]
fn delete_missing_application_is_an_error() {
    let (reply, publish) = handle_message(
        &empty(),
        Message { id: 3, request: Request::DeleteApplication { hostname: "x.test".to_string() } },
    );
    assert_eq!(reply.regarding, 3);
    match reply.response {
        Response::Error { message } => assert_eq!(message, "no app with hostname `x.test` exists"),
        other => panic!("unexpected response {other:?}"),
    }
    assert!(publish.is_none());
}

#[test]
fn delete_application_succeeds_and_publishes() {
    let c = empty().create(app("a.test", 9001)).unwrap().create(app("b.test", 9002)).unwrap();
    let (reply, publish) = handle_message(
        &c,
        Message { id: 4, request: Request::DeleteApplication { hostname: "a.test".to_string() } },
    );
    assert_eq!(reply.regarding, 4);
    assert!(matches!(reply.response, Response::Success));
    assert_eq!(publish.unwrap().applications, vec![app("b.test", 9002)]);
}

#[test]
fn status_reports_port_and_applications() {
    let c = empty().create(app("a.test", 9001)).unwrap();
    let (reply, publish) = handle_message(&c, Message { id: 65535, request: Request::Status });
    assert_eq!(reply.regarding, 65535);
    match reply.response {
        Response::Status { port, applications } => {
            assert_eq!(port, 4250);
            assert_eq!(applications, vec![app("a.test", 9001)]);
        }
        other => panic!("unexpected response {other:?}"),
    }
    assert!(publish.is_none());
}

#[test]
fn replies_carry_the_ids_of_their_messages() {
    let mut c = empty();
    let ids: [u16; 5] = [9, 0, 9, 300, 2];
    for (i, id) in ids.iter().enumerate() {
        let request = if i % 2 == 0 {
            Request::CreateApplication { application: app("a.test", 9000 + i as u16) }
        } else {
            Request::GetApplications
        };
        let (reply, publish) = handle_message(&c, Message { id: *id, request });
        assert_eq!(reply.regarding, *id);
        if let Some(next) = publish {
            c = next;
        }
    }
}

#[test]
fn connection_answers_messages() {
    let action = on_connection_event(
        &empty(),
        ConnectionEvent::Received(Message { id: 11, request: Request::GetApplications }),
    );
    match action {
        ConnectionAction::Answer { reply, publish } => {
            assert_eq!(reply.regarding, 11);
            assert!(publish.is_none());
        }
        other => panic!("unexpected action {other:?}"),
    }
}

#[test]
fn connection_skips_malformed_lines() {
    assert!(matches!(
        on_connection_event(&empty(), ConnectionEvent::Malformed),
        ConnectionAction::Continue
    ));
}

#[test]
fn connection_closes_on_end_and_failures() {
    for event in [ConnectionEvent::EndOfStream, ConnectionEvent::ReadFailed, ConnectionEvent::WriteFailed]
    {
        assert!(matches!(on_connection_event(&empty(), event), ConnectionAction::Close));
    }
}
