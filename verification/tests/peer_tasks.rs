//! The task that sends to one peer, step by step.

use gossip_service::peer_sender::{PeerSender, SenderAction, SenderState};
use gossip_service::protocol::Protocol;

const PROTOCOL: Protocol = Protocol::Authentication;

type Task = PeerSender<&'static str>;
type Action = SenderAction<&'static str, u32>;

#[test]
fn a_new_task_holds_no_sender() {
    let task = Task::new(4, PROTOCOL);
    assert_eq!(task, PeerSender { peer: 4, protocol: PROTOCOL, sender: None });
    assert_eq!(task.state(), SenderState::NoSender);
}

#[test]
fn the_first_message_asks_for_a_sender() {
    let mut task = Task::new(4, PROTOCOL);
    assert_eq!(
        task.on_message(Some(10)),
        Action::CreateSender { peer: 4, protocol: PROTOCOL, message: 10 }
    );
    assert_eq!(task.state(), SenderState::NoSender);
}

#[test]
fn a_granted_sender_is_used_and_kept() {
    let mut task = Task::new(4, PROTOCOL);
    assert_eq!(
        task.on_sender_created(Ok::<_, ()>("s1"), 10),
        Action::Send { sender: "s1", message: 10 }
    );
    assert_eq!(task.on_sent::<u32, ()>("s1", Ok(())), Action::Receive);
    assert_eq!(task.state(), SenderState::HasSender);
    assert_eq!(task.on_message(Some(11)), Action::Send { sender: "s1", message: 11 });
    assert_eq!(task.state(), SenderState::NoSender);
    assert_eq!(task.on_sent::<u32, ()>("s1", Ok(())), Action::Receive);
    assert_eq!(task.sender, Some("s1"));
}

#[test]
fn a_refused_sender_drops_the_message_and_the_next_asks_again() {
    let mut task = Task::new(4, PROTOCOL);
    assert_eq!(
        task.on_message(Some(10)),
        Action::CreateSender { peer: 4, protocol: PROTOCOL, message: 10 }
    );
    assert_eq!(task.on_sender_created(Err::<&str, _>("refused"), 10), Action::Receive);
    assert_eq!(task.state(), SenderState::NoSender);
    assert_eq!(
        task.on_message(Some(11)),
        Action::CreateSender { peer: 4, protocol: PROTOCOL, message: 11 }
    );
    assert_eq!(
        task.on_sender_created(Ok::<_, &str>("s2"), 11),
        Action::Send { sender: "s2", message: 11 }
    );
}

#[test]
fn a_failed_send_gives_the_sender_up() {
    let mut task = Task::new(4, PROTOCOL);
    assert_eq!(
        task.on_sender_created(Ok::<_, ()>("s1"), 10),
        Action::Send { sender: "s1", message: 10 }
    );
    assert_eq!(task.on_sent::<u32, _>("s1", Err("broken")), Action::Receive);
    assert_eq!(task.state(), SenderState::NoSender);
    assert_eq!(
        task.on_message(Some(11)),
        Action::CreateSender { peer: 4, protocol: PROTOCOL, message: 11 }
    );
    assert_eq!(
        task.on_sender_created(Ok::<_, ()>("s2"), 11),
        Action::Send { sender: "s2", message: 11 }
    );
    assert_eq!(task.on_sent::<u32, ()>("s2", Ok(())), Action::Receive);
    assert_eq!(task.sender, Some("s2"));
}

#[test]
fn a_closed_queue_ends_the_task() {
    let mut task = Task::new(4, PROTOCOL);
    assert_eq!(task.on_message(None), Action::Exit);
    assert_eq!(task, PeerSender { peer: 4, protocol: PROTOCOL, sender: None });

    let mut holding = PeerSender { peer: 4, protocol: PROTOCOL, sender: Some("s1") };
    assert_eq!(holding.on_message(None), Action::Exit);
    assert_eq!(holding.sender, Some("s1"));
}
