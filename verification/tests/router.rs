use std::sync::mpsc::channel;
use std::sync::mpsc::Receiver;
use std::sync::mpsc::Sender;
use std::sync::Arc;

use chain_node::Callback;
use chain_node::Client;
use chain_node::ClientApi;
use chain_node::Command;
use chain_node::Error;
use chain_node::NetworkExtension;
use chain_node::NodeToken;
use chain_node::RegistrationError;
use parking_lot::Mutex;

struct TestExtension {
    name: String,
    callbacks: Mutex<Vec<Callback>>,
    tokens: Mutex<Vec<usize>>,
}

impl TestExtension {
    fn new(name: String) -> Self {
        Self {
            name,
            callbacks: Mutex::new(vec![]),
            tokens: Mutex::new(vec![]),
        }
    }
}

impl NetworkExtension for TestExtension {
    fn name(&self) -> String {
        self.name.clone()
    }

    fn need_encryption(&self) -> bool {
        false
    }

    fn on_initialize(&self, _api: Arc<ClientApi<Self>>) {
        let mut callbacks = self.callbacks.lock();
        callbacks.push(Callback::Initialize);
    }

    fn on_node_added(&self, id: &NodeToken) {
        self.tokens.lock().push(*id);
        let mut callbacks = self.callbacks.lock();
        callbacks.push(Callback::NodeAdded);
    }

    fn on_node_removed(&self, id: &NodeToken) {
        self.tokens.lock().push(*id);
        let mut callbacks = self.callbacks.lock();
        callbacks.push(Callback::NodeRemoved);
    }

    fn on_connected(&self, id: &NodeToken) {
        self.tokens.lock().push(*id);
        let mut callbacks = self.callbacks.lock();
        callbacks.push(Callback::Connected);
    }

    fn on_connection_allowed(&self, id: &NodeToken) {
        self.tokens.lock().push(*id);
        let mut callbacks = self.callbacks.lock();
        callbacks.push(Callback::ConnectionAllowed);
    }

    fn on_connection_denied(&self, id: &NodeToken, _error: Error) {
        self.tokens.lock().push(*id);
        let mut callbacks = self.callbacks.lock();
        callbacks.push(Callback::ConnectionDenied);
    }

    fn on_message(&self, id: &NodeToken, _message: &Vec<u8>) {
        self.tokens.lock().push(*id);
        let mut callbacks = self.callbacks.lock();
        callbacks.push(Callback::Message);
    }

    fn on_close(&self) {
        let mut callbacks = self.callbacks.lock();
        callbacks.push(Callback::Close);
    }

    fn on_timer_set_allowed(&self, timer_id: usize) {
        self.tokens.lock().push(timer_id);
        let mut callbacks = self.callbacks.lock();
        callbacks.push(Callback::TimerSetAllowed);
    }

    fn on_timer_set_denied(&self, timer_id: usize, _error: Error) {
        self.tokens.lock().push(timer_id);
        let mut callbacks = self.callbacks.lock();
        callbacks.push(Callback::TimerSetDenied);
    }

    fn on_timeout(&self, timer_id: usize) {
        self.tokens.lock().push(timer_id);
        let mut callbacks = self.callbacks.lock();
        callbacks.push(Callback::Timeout);
    }
}

fn service() -> (Sender<Command>, Receiver<Command>) {
    channel()
}

fn seen(extension: &TestExtension) -> Vec<Callback> {
    extension.callbacks.lock().clone()
}

#[test]
fn broadcast_node_added() {
    let (sender, _receiver) = service();

    let client = Client::new();

    let e1 = Arc::new(TestExtension::new("e1".to_string()));
    let _ = client.register_extension(Arc::clone(&e1), sender.clone());
    let e2 = Arc::new(TestExtension::new("e2".to_string()));
    let _ = client.register_extension(Arc::clone(&e2), sender.clone());

    client.on_node_added(&1);

    {
        let callbacks = e1.callbacks.lock();
        assert_eq!(*callbacks, vec![Callback::Initialize, Callback::NodeAdded]);
    }

    {
        let callbacks = e2.callbacks.lock();
        assert_eq!(*callbacks, vec![Callback::Initialize, Callback::NodeAdded]);
    }
}

#[test]
fn message_only_to_target() {
    let (sender, _receiver) = service();

    let client = Client::new();

    let e1 = Arc::new(TestExtension::new("e1".to_string()));
    let _ = client.register_extension(Arc::clone(&e1), sender.clone());
    let e2 = Arc::new(TestExtension::new("e2".to_string()));
    let _ = client.register_extension(Arc::clone(&e2), sender.clone());

    client.on_message(&"e1".to_string(), &1, &vec![]);
    {
        let callbacks = e1.callbacks.lock();
        assert_eq!(*callbacks, vec![Callback::Initialize, Callback::Message]);
        let callbacks = e2.callbacks.lock();
        assert_eq!(*callbacks, vec![Callback::Initialize]);
    }

    client.on_message(&"e2".to_string(), &1, &vec![]);
    {
        let callbacks = e1.callbacks.lock();
        assert_eq!(*callbacks, vec![Callback::Initialize, Callback::Message]);
        let callbacks = e2.callbacks.lock();
        assert_eq!(*callbacks, vec![Callback::Initialize, Callback::Message]);
    }

    client.on_message(&"e2".to_string(), &5, &vec![]);
    client.on_message(&"e2".to_string(), &1, &vec![]);
    {
        let callbacks = e1.callbacks.lock();
        assert_eq!(*callbacks, vec![Callback::Initialize, Callback::Message]);
        let callbacks = e2.callbacks.lock();
        assert_eq!(
            *callbacks,
            vec![Callback::Initialize, Callback::Message, Callback::Message, Callback::Message]
        );
    }
}

#[test]
fn second_registration_under_one_name_is_refused() {
    let (sender, _receiver) = service();
    let client = Client::new();

    let first = Arc::new(TestExtension::new("e1".to_string()));
    let second = Arc::new(TestExtension::new("e1".to_string()));
    assert!(client.register_extension(Arc::clone(&first), sender.clone()).is_ok());
    let refused = client.register_extension(Arc::clone(&second), sender.clone());
    assert_eq!(refused.err(), Some(RegistrationError::NameInUse));

    assert_eq!(client.on_node_added(&7), 1);
    assert_eq!(seen(&first), vec![Callback::Initialize, Callback::NodeAdded]);
    assert_eq!(seen(&second), vec![]);
}

#[test]
fn initialize_is_seen_before_any_event() {
    let (sender, _receiver) = service();
    let client = Client::new();

    let e1 = Arc::new(TestExtension::new("e1".to_string()));
    assert!(client.register_extension(Arc::clone(&e1), sender).is_ok());
    assert_eq!(seen(&e1), vec![Callback::Initialize]);

    assert_eq!(client.on_node_added(&3), 1);
    assert_eq!(seen(&e1), vec![Callback::Initialize, Callback::NodeAdded]);
    assert_eq!(seen(&e1)[0], Callback::Initialize);
    assert_eq!(seen(&e1).iter().filter(|callback| **callback == Callback::Initialize).count(), 1);
}

#[test]
fn broadcast_on_an_empty_router_tells_nobody() {
    let client: Arc<Client<TestExtension>> = Client::new();
    assert_eq!(client.on_node_added(&1), 0);
    assert_eq!(client.on_node_removed(&1), 0);
}

#[test]
fn node_removed_reaches_every_extension() {
    let (sender, _receiver) = service();
    let client = Client::new();
    let e1 = Arc::new(TestExtension::new("e1".to_string()));
    let e2 = Arc::new(TestExtension::new("e2".to_string()));
    let e3 = Arc::new(TestExtension::new("e3".to_string()));
    assert!(client.register_extension(Arc::clone(&e1), sender.clone()).is_ok());
    assert!(client.register_extension(Arc::clone(&e2), sender.clone()).is_ok());
    assert!(client.register_extension(Arc::clone(&e3), sender.clone()).is_ok());

    assert_eq!(client.on_node_removed(&42), 3);
    for extension in [&e1, &e2, &e3] {
        assert_eq!(seen(extension), vec![Callback::Initialize, Callback::NodeRemoved]);
        assert_eq!(*extension.tokens.lock(), vec![42]);
    }
}

#[test]
fn unknown_target_is_dropped() {
    let (sender, _receiver) = service();
    let client = Client::new();
    let e1 = Arc::new(TestExtension::new("e1".to_string()));
    assert!(client.register_extension(Arc::clone(&e1), sender).is_ok());

    let nobody = "e9".to_string();
    assert!(!client.on_connected(&nobody, &1));
    assert!(!client.on_connection_allowed(&nobody, &1));
    assert!(!client.on_connection_denied(&nobody, &1, Error::ExtensionDropped));
    assert!(!client.on_message(&nobody, &1, &vec![1, 2, 3]));
    assert!(!client.on_timer_set_allowed(&nobody, 1));
    assert!(!client.on_timer_set_denied(&nobody, 1, Error::DuplicatedTimerId));
    assert!(!client.on_timeout(&nobody, 1));

    assert_eq!(seen(&e1), vec![Callback::Initialize]);
    assert!(e1.tokens.lock().is_empty());
}

#[test]
fn a_name_is_matched_whole() {
    let (sender, _receiver) = service();
    let client = Client::new();
    let e1 = Arc::new(TestExtension::new("e1".to_string()));
    assert!(client.register_extension(Arc::clone(&e1), sender).is_ok());

    assert!(!client.on_timeout(&"e".to_string(), 1));
    assert!(!client.on_timeout(&"e11".to_string(), 1));
    assert!(!client.on_timeout(&"E1".to_string(), 1));
    assert!(!client.on_timeout(&"".to_string(), 1));
    assert!(client.on_timeout(&"e1".to_string(), 1));
    assert_eq!(seen(&e1), vec![Callback::Initialize, Callback::Timeout]);
}

#[test]
fn every_targeted_event_invokes_its_own_callback() {
    let (sender, _receiver) = service();
    let client = Client::new();
    let e1 = Arc::new(TestExtension::new("e1".to_string()));
    let e2 = Arc::new(TestExtension::new("e2".to_string()));
    assert!(client.register_extension(Arc::clone(&e1), sender.clone()).is_ok());
    assert!(client.register_extension(Arc::clone(&e2), sender.clone()).is_ok());

    let name = "e1".to_string();
    assert!(client.on_connected(&name, &10));
    assert!(client.on_connection_allowed(&name, &11));
    assert!(client.on_connection_denied(&name, &12, Error::NoMoreTimerToken));
    assert!(client.on_message(&name, &13, &vec![0xff]));
    assert!(client.on_timer_set_allowed(&name, 14));
    assert!(client.on_timer_set_denied(&name, 15, Error::DuplicatedTimerId));
    assert!(client.on_timeout(&name, 16));

    assert_eq!(
        seen(&e1),
        vec![
            Callback::Initialize,
            Callback::Connected,
            Callback::ConnectionAllowed,
            Callback::ConnectionDenied,
            Callback::Message,
            Callback::TimerSetAllowed,
            Callback::TimerSetDenied,
            Callback::Timeout,
        ]
    );
    assert_eq!(*e1.tokens.lock(), vec![10, 11, 12, 13, 14, 15, 16]);
    assert_eq!(seen(&e2), vec![Callback::Initialize]);
}

#[test]
fn targeted_order_is_kept() {
    let (sender, _receiver) = service();
    let client = Client::new();
    let e1 = Arc::new(TestExtension::new("e1".to_string()));
    let e2 = Arc::new(TestExtension::new("e2".to_string()));
    assert!(client.register_extension(Arc::clone(&e1), sender.clone()).is_ok());
    assert!(client.register_extension(Arc::clone(&e2), sender.clone()).is_ok());

    let name = "e2".to_string();
    assert!(client.on_message(&name, &5, &vec![]));
    assert!(client.on_message(&name, &1, &vec![]));
    assert!(client.on_message(&name, &1, &vec![]));

    assert_eq!(*e2.tokens.lock(), vec![5, 1, 1]);
    assert_eq!(
        seen(&e2),
        vec![Callback::Initialize, Callback::Message, Callback::Message, Callback::Message]
    );
    assert!(e1.tokens.lock().is_empty());
}

#[test]
fn close_reaches_every_extension_once() {
    let (sender, _receiver) = service();
    let client = Client::new();
    let e1 = Arc::new(TestExtension::new("e1".to_string()));
    let e2 = Arc::new(TestExtension::new("e2".to_string()));
    assert!(client.register_extension(Arc::clone(&e1), sender.clone()).is_ok());
    assert!(client.register_extension(Arc::clone(&e2), sender.clone()).is_ok());
    assert_eq!(client.on_node_added(&1), 2);

    assert_eq!(client.on_close(), 2);
    let closed = vec![Callback::Initialize, Callback::NodeAdded, Callback::Close];
    assert_eq!(seen(&e1), closed);
    assert_eq!(seen(&e2), closed);

    assert_eq!(client.on_close(), 0);
    assert_eq!(client.on_node_added(&2), 0);
    assert_eq!(client.on_node_removed(&2), 0);
    assert!(!client.on_message(&"e1".to_string(), &2, &vec![]));
    assert!(!client.on_timeout(&"e2".to_string(), 2));
    assert_eq!(seen(&e1), closed);
    assert_eq!(seen(&e2), closed);
}

#[test]
fn a_closed_router_takes_no_extension() {
    let (sender, _receiver) = service();
    let client = Client::new();
    assert_eq!(client.on_close(), 0);

    let e1 = Arc::new(TestExtension::new("e1".to_string()));
    let refused = client.register_extension(Arc::clone(&e1), sender);
    assert_eq!(refused.err(), Some(RegistrationError::RouterClosed));
    assert_eq!(seen(&e1), vec![]);
    assert_eq!(client.on_node_added(&1), 0);
}

#[test]
fn a_refused_registration_leaves_the_first_in_place() {
    let (sender, _receiver) = service();
    let client = Client::new();
    let first = Arc::new(TestExtension::new("same".to_string()));
    let second = Arc::new(TestExtension::new("same".to_string()));
    assert!(client.register_extension(Arc::clone(&first), sender.clone()).is_ok());
    assert!(client.register_extension(Arc::clone(&second), sender.clone()).is_err());

    assert!(client.on_message(&"same".to_string(), &8, &vec![1]));
    assert_eq!(seen(&first), vec![Callback::Initialize, Callback::Message]);
    assert_eq!(seen(&second), vec![]);
    assert_eq!(Arc::strong_count(&second), 1);
    assert_eq!(Arc::strong_count(&first), 2);
}
