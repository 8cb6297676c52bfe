use futures::Async;
use futures::AsyncSink;
use packet_dialogue::Client;
use packet_dialogue::ClosedDialogue;
use packet_dialogue::Dialogue;
use packet_dialogue::Frame;
use packet_dialogue::PacketType;
use packet_dialogue::ProtocolViolation;
use packet_dialogue::Server;

type Packet = Frame<u32>;

fn request(id: u32, data: Option<u32>) -> Packet {
    Frame { id, packet_type: PacketType::Request, data }
}

fn response(id: u32, data: Option<u32>) -> Packet {
    Frame { id, packet_type: PacketType::Response, data }
}

#[test]
fn request_stages_one_packet_under_the_first_id_of_the_role() {
    let mut client: Dialogue<Packet, u32, Client> = Dialogue::new();
    let mut server: Dialogue<Packet, u32, Server> = Dialogue::new();
    let _a = client.request(10);
    let _b = server.request(20);
    assert_eq!(client.next_outgoing(), Some(request(1, Some(10))));
    assert_eq!(client.next_outgoing(), None);
    assert_eq!(server.next_outgoing(), Some(request(0, Some(20))));
    assert_eq!(server.next_outgoing(), None);
    assert!(client.is_tracked(1));
    assert!(server.is_tracked(0));
}

#[test]
fn response_resolves_the_request_once() {
    let mut client: Dialogue<Packet, u32, Client> = Dialogue::new();
    let mut handle = client.request(10);
    assert_eq!(client.dispatch(response(1, Some(77))), Ok(None));
    assert_eq!(handle.poll(&mut client), Ok(Async::Ready(Some(77))));
    assert!(!client.is_tracked(1));
    assert_eq!(handle.poll(&mut client), Ok(Async::NotReady));
}

#[test]
fn second_response_before_the_first_is_taken_is_a_violation() {
    let mut client: Dialogue<Packet, u32, Client> = Dialogue::new();
    let mut handle = client.request(10);
    assert_eq!(client.dispatch(response(1, Some(77))), Ok(None));
    assert_eq!(
        client.dispatch(response(1, Some(78))),
        Err(ProtocolViolation::UnexpectedPacket)
    );
    assert!(client.is_closed());
    assert_eq!(handle.poll(&mut client), Err(ClosedDialogue));
}

#[test]
fn second_response_after_the_first_is_taken_is_a_violation() {
    let mut client: Dialogue<Packet, u32, Client> = Dialogue::new();
    let mut handle = client.request(10);
    assert_eq!(client.dispatch(response(1, Some(77))), Ok(None));
    assert_eq!(handle.poll(&mut client), Ok(Async::Ready(Some(77))));
    assert_eq!(client.dispatch(response(1, Some(77))), Err(ProtocolViolation::UnknownId));
    assert!(client.is_closed());
}

#[test]
fn declined_request_resolves_to_none() {
    let mut client: Dialogue<Packet, u32, Client> = Dialogue::new();
    let mut server: Dialogue<Packet, u32, Server> = Dialogue::new();
    let mut handle = client.request(10);
    let packet = client.next_outgoing().expect("the request is staged");
    let fresh = server.dispatch(packet).expect("no violation").expect("a fresh request");
    let request = server.packet_as_request(fresh);
    assert!(matches!(request.start_cancelling(&mut server), Ok(AsyncSink::Ready)));
    assert_eq!(server.next_outgoing(), Some(response(1, None)));
    assert!(!server.is_tracked(1));

    assert_eq!(client.dispatch(response(1, None)), Ok(None));
    assert_eq!(handle.poll(&mut client), Ok(Async::Ready(None)));
    assert!(!client.is_tracked(1));
}

#[test]
fn released_request_leaves_no_id_reserved() {
    let mut server: Dialogue<Packet, u32, Server> = Dialogue::new();
    let fresh = server.dispatch(request(1, Some(5))).expect("no violation").expect("fresh");
    let handle = server.packet_as_request(fresh);
    assert!(server.is_tracked(1));
    handle.release(&mut server);
    assert!(!server.is_tracked(1));
    assert_eq!(server.next_outgoing(), None);

    // The id can open a request again.
    let again = server.dispatch(request(1, Some(6))).expect("no violation").expect("fresh");
    let handle = server.packet_as_request(again);
    assert_eq!(handle.get_data(), 6);
    assert!(server.is_tracked(1));
    assert!(!server.is_closed());
}

#[test]
fn cancelled_request_is_withdrawn_from_the_peer() {
    let mut client: Dialogue<Packet, u32, Client> = Dialogue::new();
    let mut server: Dialogue<Packet, u32, Server> = Dialogue::new();
    let mut handle = client.request(10);
    let packet = client.next_outgoing().expect("the request is staged");
    let fresh = server.dispatch(packet).expect("no violation").expect("a fresh request");
    let request = server.packet_as_request(fresh);
    assert_eq!(request.poll(&server), Ok(Async::NotReady));

    assert_eq!(handle.start_cancel(&mut client), Ok(AsyncSink::Ready));
    assert!(!client.is_tracked(1));
    assert_eq!(handle.poll(&mut client), Ok(Async::NotReady));
    // Cancelling again stages nothing more.
    assert_eq!(handle.start_cancel(&mut client), Ok(AsyncSink::Ready));
    let withdrawal = client.next_outgoing().expect("the withdrawal is staged");
    assert_eq!(withdrawal, request_packet_without_data(1));
    assert_eq!(client.next_outgoing(), None);

    assert_eq!(server.dispatch(withdrawal), Ok(None));
    assert_eq!(request.poll(&server), Ok(Async::Ready(())));
    // An answer to a withdrawn request is not sent.
    assert!(matches!(request.start_responding(&mut server, 99), Ok(AsyncSink::Ready)));
    assert_eq!(server.next_outgoing(), None);
    assert!(!server.is_tracked(1));
}

fn request_packet_without_data(id: u32) -> Packet {
    request(id, None)
}

#[test]
fn cancelling_after_the_response_arrived_sends_nothing() {
    let mut client: Dialogue<Packet, u32, Client> = Dialogue::new();
    let mut handle = client.request(10);
    let _ = client.next_outgoing();
    assert_eq!(client.dispatch(response(1, Some(3))), Ok(None));
    assert_eq!(handle.start_cancel(&mut client), Ok(AsyncSink::Ready));
    assert_eq!(client.next_outgoing(), None);
    assert!(!client.is_tracked(1));
    assert_eq!(handle.poll(&mut client), Ok(Async::NotReady));
}

#[test]
fn withdrawal_of_a_forgotten_request_is_dropped() {
    let mut server: Dialogue<Packet, u32, Server> = Dialogue::new();
    assert_eq!(server.dispatch(request(1, None)), Ok(None));
    assert!(!server.is_closed());
    assert!(!server.is_tracked(1));
}

#[test]
fn released_response_forgets_the_request_and_sends_nothing() {
    let mut client: Dialogue<Packet, u32, Client> = Dialogue::new();
    let handle = client.request(10);
    let _ = client.next_outgoing();
    handle.release(&mut client);
    assert!(!client.is_tracked(1));
    assert_eq!(client.next_outgoing(), None);
    assert_eq!(client.dispatch(response(1, Some(1))), Err(ProtocolViolation::UnknownId));
}

#[test]
fn handles_of_a_closed_dialogue_report_it() {
    let mut client: Dialogue<Packet, u32, Client> = Dialogue::new();
    let mut server: Dialogue<Packet, u32, Server> = Dialogue::new();
    let fresh = server.dispatch(request(1, Some(5))).expect("no violation").expect("fresh");
    let request = server.packet_as_request(fresh);
    assert_eq!(request.poll(&server), Ok(Async::NotReady));
    server.close();
    assert_eq!(request.poll(&server), Ok(Async::Ready(())));
    assert!(matches!(request.start_responding(&mut server, 1), Err(ClosedDialogue)));

    client.close();
    let mut handle = client.request(10);
    assert_eq!(client.next_outgoing(), None);
    assert_eq!(handle.poll(&mut client), Err(ClosedDialogue));
    assert_eq!(handle.start_cancel(&mut client), Err(ClosedDialogue));
    assert_eq!(client.message(1), Err(ClosedDialogue));
    assert_eq!(client.dispatch(response(1, Some(1))), Ok(None));
}

#[test]
fn message_is_staged_under_id_zero_and_handed_to_the_peers_application() {
    let mut client: Dialogue<Packet, u32, Client> = Dialogue::new();
    let mut server: Dialogue<Packet, u32, Server> = Dialogue::new();
    assert_eq!(client.message(42), Ok(AsyncSink::Ready));
    let packet = client.next_outgoing().expect("the message is staged");
    assert_eq!(packet, Frame { id: 0, packet_type: PacketType::Message, data: Some(42) });
    assert_eq!(server.dispatch(packet), Ok(Some(Frame { id: 0, packet_type: PacketType::Message, data: Some(42) })));
    assert!(!server.is_tracked(0));
    assert!(!client.is_tracked(0));
}
