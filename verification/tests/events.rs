use event_distributor::distributor::ServerEventDistributor;
use event_distributor::event::ConversationId;
use event_distributor::event::ServerEvent;
use event_distributor::protocol::AudioFormat;
use event_distributor::protocol::OutputModality;

fn id(name: &str) -> ConversationId {
    ConversationId::new(name.to_string())
}

fn one_of_each(name: &str) -> Vec<ServerEvent> {
    vec![
        ServerEvent::Started { id: id(name), modalities: vec![OutputModality::Text] },
        ServerEvent::Stopped { id: id(name) },
        ServerEvent::Error { id: id(name), message: "failed".to_string() },
        ServerEvent::Audio {
            id: id(name),
            format: AudioFormat::new(1, 16000),
            samples: vec![1, -1, 2],
        },
        ServerEvent::ClearAudio { id: id(name) },
        ServerEvent::Text { id: id(name), is_final: false, content: "hel".to_string() },
        ServerEvent::RequestCompleted { id: id(name), request_id: "r1".to_string() },
        ServerEvent::Custom { id: id(name), payload: "{}".to_string() },
    ]
}

#[test]
fn conversation_id_keeps_its_name() {
    let a = id("conversation-a");
    assert_eq!(a.as_str(), "conversation-a");
    assert_eq!(a.clone(), a);
    assert_eq!(a.clone().into_string(), "conversation-a".to_string());
    assert_eq!(ConversationId::from("conversation-a".to_string()), a);
    assert_ne!(id("conversation-b"), a);
    assert_eq!(id("").as_str(), "");
}

#[test]
fn every_event_names_its_conversation() {
    let events = one_of_each("a");
    assert_eq!(events.len(), 8);
    for event in events {
        assert_eq!(event.conversation_id(), &id("a"));
    }
    let event = ServerEvent::Stopped { id: id("b") };
    assert_eq!(event.conversation_id().as_str(), "b");
}

#[test]
fn only_output_may_be_redirected() {
    let redirected: Vec<bool> = one_of_each("a")
        .iter()
        .map(|event| ServerEventDistributor::may_be_redirected(event))
        .collect();
    assert_eq!(redirected, vec![false, false, false, true, true, true, false, false]);
}
