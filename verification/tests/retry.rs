use fabric::endpoints::Put;
use fabric::error::FabricError;
use fabric::retry::{decide, ConfigPush, PushEvent, PushKind, PushStep};
use std::time::Duration;

fn message() -> Put {
    Put { key_expr: "node/n1/config".to_string(), payload: b"{}".to_vec() }
}

#[test]
fn decide_ends_on_success() {
    assert!(matches!(decide(PushKind::NodeConfig, PushEvent::Sent, None), PushStep::Done));
    assert!(matches!(
        decide(PushKind::NodeConfig, PushEvent::Sent, Some(Duration::from_secs(1))),
        PushStep::Done
    ));
}

#[test]
fn decide_retries_after_the_granted_delay() {
    let step = decide(
        PushKind::NodeConfig,
        PushEvent::SendFailed("down".to_string()),
        Some(Duration::from_millis(750)),
    );
    match step {
        PushStep::RetryAfter(delay) => assert_eq!(delay, Duration::from_millis(750)),
        _ => panic!("expected a retry"),
    }
}

#[test]
fn decide_gives_up_when_the_budget_is_spent() {
    match decide(PushKind::NodeConfig, PushEvent::SendFailed("down".to_string()), None) {
        PushStep::Failed(e) => assert_eq!(e, FabricError::PublishError("down".to_string())),
        _ => panic!("expected a failure"),
    }
    match decide(PushKind::ConfigValue, PushEvent::SendFailed("down".to_string()), None) {
        PushStep::Failed(e) => {
            assert_eq!(e, FabricError::Other("Failed to update node config: down".to_string()))
        }
        _ => panic!("expected a failure"),
    }
}

#[test]
fn decide_fails_on_cancellation() {
    match decide(PushKind::NodeConfig, PushEvent::Cancelled, Some(Duration::from_secs(1))) {
        PushStep::Failed(e) => assert_eq!(e, FabricError::Cancelled),
        _ => panic!("expected a failure"),
    }
}

#[test]
fn retry_then_succeed() {
    let mut push = ConfigPush::new(PushKind::NodeConfig, message());
    assert_eq!(*push.get_message(), message());
    let mut expected = 500.0_f64;
    let mut total = Duration::ZERO;
    for _ in 0..3 {
        match push.step(PushEvent::SendFailed("transport down".to_string())) {
            PushStep::RetryAfter(delay) => {
                let millis = delay.as_secs_f64() * 1000.0;
                assert!(millis >= expected * 0.5 - 1.0, "{} < {}", millis, expected * 0.5);
                assert!(millis <= expected * 1.5 + 1.0, "{} > {}", millis, expected * 1.5);
                total += delay;
            }
            _ => panic!("expected a retry"),
        }
        expected *= 1.5;
    }
    assert!(matches!(push.step(PushEvent::Sent), PushStep::Done));
    let nominal = 500.0 * (1.0 + 1.5 + 2.25);
    let millis = total.as_secs_f64() * 1000.0;
    assert!(millis >= nominal * 0.5 - 3.0);
    assert!(millis <= nominal * 1.5 + 3.0);
    assert_eq!(*push.get_message(), message());
}

#[test]
fn a_cancelled_push_fails_with_cancelled() {
    let mut push = ConfigPush::new(PushKind::ConfigValue, message());
    match push.step(PushEvent::Cancelled) {
        PushStep::Failed(e) => assert_eq!(e, FabricError::Cancelled),
        _ => panic!("expected a failure"),
    }
}
