use mullvad_jni::classes::{ClassRegistry, classes_to_load};
use mullvad_jni::connect::{ConnectionAttempt, MAX_CONNECTION_ATTEMPTS};
use mullvad_jni::logging::{LOG_FILE_NAME, LOG_TIMESTAMP_FORMAT, format_log_line};
use mullvad_jni::tunnel_events::tunnel_event_callback;

#[test]
fn classes_loaded_up_front() {
    let classes = classes_to_load();
    assert_eq!(classes.len(), 16);
    assert_eq!(classes[0], "java/util/ArrayList");
    assert_eq!(classes[15], "net/mullvad/mullvadvpn/model/Settings");
    assert!(classes.contains(&"net/mullvad/mullvadvpn/model/LocationConstraint$Hostname".to_string()));
    assert!(!classes
        .iter()
        .any(|c| c.starts_with("net/mullvad/mullvadvpn/model/TunnelStateTransition")));
}

#[test]
fn registry_finds_what_was_loaded() {
    let mut registry: ClassRegistry<u32> = ClassRegistry::new();
    assert_eq!(registry.get_class(&"java/util/ArrayList".to_string()), None);
    for (i, name) in classes_to_load().into_iter().enumerate() {
        registry.insert(name, i as u32);
    }
    assert_eq!(registry.get_class(&"java/util/ArrayList".to_string()), Some(&0));
    assert_eq!(
        registry.get_class(&"net/mullvad/mullvadvpn/model/Settings".to_string()),
        Some(&15)
    );
    assert_eq!(
        registry.get_class(&"net/mullvad/mullvadvpn/model/TunnelStateTransition$Connected".to_string()),
        None
    );
}

#[test]
fn registry_insert_replaces() {
    let mut registry: ClassRegistry<&str> = ClassRegistry::new();
    registry.insert("a".to_string(), "first");
    registry.insert("b".to_string(), "other");
    registry.insert("a".to_string(), "second");
    assert_eq!(registry.get_class(&"a".to_string()), Some(&"second"));
    assert_eq!(registry.get_class(&"b".to_string()), Some(&"other"));
}

#[test]
fn connection_is_tried_ten_times_with_growing_waits() {
    let mut attempt = ConnectionAttempt::first();
    let mut delays = Vec::new();
    let mut numbers = Vec::new();
    loop {
        numbers.push(attempt.number());
        let after = attempt.after_failure();
        delays.push(after.delay_ms);
        match after.next {
            Some(next) => attempt = next,
            None => break,
        }
    }
    assert_eq!(numbers, (1..=MAX_CONNECTION_ATTEMPTS).collect::<Vec<u32>>());
    assert_eq!(delays, vec![0, 50, 100, 150, 200, 250, 300, 350, 400, 450]);
}

#[test]
fn log_line_layout() {
    assert_eq!(
        format_log_line("[2019-03-01][12:00:00]", "mullvad_jni", "INFO", "Connecting"),
        "[2019-03-01][12:00:00][mullvad_jni][INFO] Connecting"
    );
    assert_eq!(LOG_TIMESTAMP_FORMAT, "[%Y-%m-%d][%H:%M:%S]");
    assert_eq!(LOG_FILE_NAME, "jni.log");
}

#[test]
fn tunnel_events_go_to_the_ipc_client() {
    let method = tunnel_event_callback();
    assert_eq!(method.class, "net/mullvad/mullvadvpn/MullvadIpcClient");
    assert_eq!(method.name, "notifyTunnelStateEvent");
    assert_eq!(method.signature, "(Lnet/mullvad/mullvadvpn/model/TunnelStateTransition;)V");
}

#[test]
fn loading_classes_twice_keeps_the_same_names() {
    let mut registry: ClassRegistry<u32> = ClassRegistry::new();
    for name in classes_to_load() {
        registry.insert(name, 1);
    }
    for name in classes_to_load() {
        registry.insert(name, 2);
    }
    for name in classes_to_load() {
        assert_eq!(registry.get_class(&name), Some(&2));
    }
    assert_eq!(registry.get_class(&"java/lang/Object".to_string()), None);
}
