use std::sync::mpsc::channel;
use std::sync::Arc;

use chain_node::event::BroadcastEvent;
use chain_node::event::TargetedEvent;
use chain_node::Callback;
use chain_node::ClientApi;
use chain_node::Error;
use chain_node::NetworkExtension;
use chain_node::NodeToken;
use chain_node::RegistrationError;
use chain_node::Registry;
use parking_lot::Mutex;

struct Probe {
    name: String,
    log: Mutex<Vec<(Callback, usize)>>,
    errors: Mutex<Vec<Error>>,
    payloads: Mutex<Vec<Vec<u8>>>,
}

impl Probe {
    fn new(name: &str) -> Arc<Self> {
        Arc::new(Probe {
            name: name.to_string(),
            log: Mutex::new(Vec::new()),
            errors: Mutex::new(Vec::new()),
            payloads: Mutex::new(Vec::new()),
        })
    }

    fn log(&self) -> Vec<(Callback, usize)> {
        self.log.lock().clone()
    }
}

impl NetworkExtension for Probe {
    fn name(&self) -> String {
        self.name.clone()
    }

    fn need_encryption(&self) -> bool {
        false
    }

    fn on_initialize(&self, _api: Arc<ClientApi<Self>>) {
        self.log.lock().push((Callback::Initialize, 0));
    }

    fn on_connection_denied(&self, node: &NodeToken, error: Error) {
        self.log.lock().push((Callback::ConnectionDenied, *node));
        self.errors.lock().push(error);
    }

    fn on_message(&self, node: &NodeToken, message: &Vec<u8>) {
        self.log.lock().push((Callback::Message, *node));
        self.payloads.lock().push(message.clone());
    }

    fn on_close(&self) {
        self.log.lock().push((Callback::Close, 0));
    }

    fn on_timer_set_denied(&self, timer: usize, error: Error) {
        self.log.lock().push((Callback::TimerSetDenied, timer));
        self.errors.lock().push(error);
    }
}

#[test]
fn a_new_registry_is_empty_and_open() {
    let registry: Registry<Probe> = Registry::new();
    assert_eq!(registry.len(), 0);
    assert!(!registry.is_closed());
    assert!(!registry.contains(&"e1".to_string()));
    assert!(registry.find(&"e1".to_string()).is_none());
}

#[test]
fn insert_takes_a_free_name_and_refuses_a_taken_one() {
    let mut registry = Registry::new();
    let first = Probe::new("first");
    let second = Probe::new("second");

    assert_eq!(registry.insert("a".to_string(), Arc::clone(&first)), Ok(()));
    assert_eq!(registry.len(), 1);
    assert_eq!(
        registry.insert("a".to_string(), Arc::clone(&second)),
        Err(RegistrationError::NameInUse)
    );
    assert_eq!(registry.len(), 1);
    assert!(Arc::ptr_eq(registry.find(&"a".to_string()).unwrap(), &first));

    assert_eq!(registry.insert("b".to_string(), Arc::clone(&second)), Ok(()));
    assert_eq!(registry.len(), 2);
    assert!(Arc::ptr_eq(registry.find(&"a".to_string()).unwrap(), &first));
    assert!(Arc::ptr_eq(registry.find(&"b".to_string()).unwrap(), &second));
    assert!(registry.contains(&"b".to_string()));
    assert!(!registry.contains(&"c".to_string()));
}

#[test]
fn insert_does_not_initialize() {
    let mut registry = Registry::new();
    let probe = Probe::new("probe");
    assert_eq!(registry.insert("probe".to_string(), Arc::clone(&probe)), Ok(()));
    assert_eq!(probe.log(), vec![]);
}

#[test]
fn registration_goes_by_the_name_the_extension_states() {
    let (sender, _receiver) = channel();
    let mut registry = Registry::new();
    let probe = Probe::new("stated");
    assert!(registry.register_extension(Arc::clone(&probe), sender.clone()).is_ok());
    assert_eq!(probe.log(), vec![(Callback::Initialize, 0)]);
    assert!(registry.contains(&"stated".to_string()));
    assert_eq!(registry.len(), 1);

    let twin = Probe::new("stated");
    assert_eq!(
        registry.register_extension(Arc::clone(&twin), sender).err(),
        Some(RegistrationError::NameInUse)
    );
    assert_eq!(twin.log(), vec![]);
    assert_eq!(registry.len(), 1);
    assert!(Arc::ptr_eq(registry.find(&"stated".to_string()).unwrap(), &probe));
}

#[test]
fn deliver_hands_over_the_arguments_of_the_event() {
    let (sender, _receiver) = channel();
    let mut registry = Registry::new();
    let probe = Probe::new("probe");
    assert!(registry.register_extension(Arc::clone(&probe), sender).is_ok());
    let name = "probe".to_string();

    let payload = vec![1, 2, 3];
    assert!(registry.deliver(&name, &TargetedEvent::Message { node: 6, data: &payload }).is_some());
    assert!(registry
        .deliver(&name, &TargetedEvent::ConnectionDenied { node: 7, error: Error::ExtensionDropped })
        .is_some());
    assert!(registry
        .deliver(&name, &TargetedEvent::TimerSetDenied { timer: 8, error: Error::NoMoreTimerToken })
        .is_some());

    assert_eq!(
        probe.log(),
        vec![
            (Callback::Initialize, 0),
            (Callback::Message, 6),
            (Callback::ConnectionDenied, 7),
            (Callback::TimerSetDenied, 8),
        ]
    );
    assert_eq!(*probe.payloads.lock(), vec![vec![1, 2, 3]]);
    assert_eq!(*probe.errors.lock(), vec![Error::ExtensionDropped, Error::NoMoreTimerToken]);
}

#[test]
fn callbacks_that_an_extension_leaves_out_do_nothing() {
    let (sender, _receiver) = channel();
    let mut registry = Registry::new();
    let probe = Probe::new("probe");
    assert!(registry.register_extension(Arc::clone(&probe), sender).is_ok());
    let name = "probe".to_string();

    assert_eq!(registry.broadcast(&BroadcastEvent::NodeAdded { node: 1 }), 1);
    assert_eq!(registry.broadcast(&BroadcastEvent::NodeRemoved { node: 1 }), 1);
    assert!(registry.deliver(&name, &TargetedEvent::Connected { node: 1 }).is_some());
    assert!(registry.deliver(&name, &TargetedEvent::ConnectionAllowed { node: 1 }).is_some());
    assert!(registry.deliver(&name, &TargetedEvent::TimerSetAllowed { timer: 1 }).is_some());
    assert!(registry.deliver(&name, &TargetedEvent::Timeout { timer: 1 }).is_some());
    assert_eq!(probe.log(), vec![(Callback::Initialize, 0)]);
}

#[test]
fn notify_says_which_callback_it_invoked() {
    let probe = Probe::new("probe");
    let payload = vec![4];
    assert_eq!(BroadcastEvent::NodeAdded { node: 1 }.notify(&*probe), Callback::NodeAdded);
    assert_eq!(BroadcastEvent::NodeRemoved { node: 1 }.notify(&*probe), Callback::NodeRemoved);
    assert_eq!(TargetedEvent::Connected { node: 1 }.notify(&*probe), Callback::Connected);
    assert_eq!(
        TargetedEvent::ConnectionAllowed { node: 1 }.notify(&*probe),
        Callback::ConnectionAllowed
    );
    assert_eq!(
        TargetedEvent::ConnectionDenied { node: 2, error: Error::DuplicatedTimerId }.notify(&*probe),
        Callback::ConnectionDenied
    );
    assert_eq!(TargetedEvent::Message { node: 3, data: &payload }.notify(&*probe), Callback::Message);
    assert_eq!(TargetedEvent::TimerSetAllowed { timer: 1 }.notify(&*probe), Callback::TimerSetAllowed);
    assert_eq!(
        TargetedEvent::TimerSetDenied { timer: 4, error: Error::DuplicatedTimerId }.notify(&*probe),
        Callback::TimerSetDenied
    );
    assert_eq!(TargetedEvent::Timeout { timer: 1 }.notify(&*probe), Callback::Timeout);
    assert_eq!(
        probe.log(),
        vec![(Callback::ConnectionDenied, 2), (Callback::Message, 3), (Callback::TimerSetDenied, 4)]
    );
}

#[test]
fn close_empties_the_registry_for_good() {
    let (sender, _receiver) = channel();
    let mut registry = Registry::new();
    let probe = Probe::new("probe");
    assert!(registry.register_extension(Arc::clone(&probe), sender.clone()).is_ok());
    assert_eq!(Arc::strong_count(&probe), 2);

    assert_eq!(registry.close(), 1);
    assert!(registry.is_closed());
    assert_eq!(registry.len(), 0);
    assert_eq!(Arc::strong_count(&probe), 1);
    assert_eq!(probe.log(), vec![(Callback::Initialize, 0), (Callback::Close, 0)]);

    assert_eq!(registry.close(), 0);
    assert!(registry.deliver(&"probe".to_string(), &TargetedEvent::Timeout { timer: 1 }).is_none());
    assert_eq!(registry.broadcast(&BroadcastEvent::NodeAdded { node: 1 }), 0);
    assert_eq!(
        registry.insert("probe".to_string(), Arc::clone(&probe)),
        Err(RegistrationError::RouterClosed)
    );
    assert_eq!(
        registry.register_extension(Arc::clone(&probe), sender).err(),
        Some(RegistrationError::RouterClosed)
    );
    assert_eq!(probe.log(), vec![(Callback::Initialize, 0), (Callback::Close, 0)]);
}

#[test]
fn deliver_returns_the_extension_it_reached() {
    let (sender, _receiver) = channel();
    let mut registry = Registry::new();
    let left = Probe::new("left");
    let right = Probe::new("right");
    assert!(registry.register_extension(Arc::clone(&left), sender.clone()).is_ok());
    assert!(registry.register_extension(Arc::clone(&right), sender).is_ok());

    let payload = vec![7];
    let event = TargetedEvent::Message { node: 3, data: &payload };
    let reached = registry.deliver(&"right".to_string(), &event);
    assert!(Arc::ptr_eq(reached.unwrap(), &right));
    assert_eq!(right.log(), vec![(Callback::Initialize, 0), (Callback::Message, 3)]);
    assert_eq!(left.log(), vec![(Callback::Initialize, 0)]);
    assert!(registry.deliver(&"middle".to_string(), &event).is_none());
}
