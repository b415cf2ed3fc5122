use liana_gui::network::{networks, Network};
use liana_gui::threshold::{threshold_step, threshsold_input, Event, ThresholdInput};

#[test]
fn network_names() {
    assert_eq!(Network::Mainnet.to_string(), "Bitcoin mainnet");
    assert_eq!(Network::Testnet.to_string(), "Bitcoin testnet");
    assert_eq!(Network::Regtest.to_string(), "Bitcoin regtest");
    assert_eq!(Network::Signet.to_string(), "Bitcoin signet");
}

#[test]
fn network_picker_order() {
    assert_eq!(
        networks(),
        vec![Network::Mainnet, Network::Testnet, Network::Signet, Network::Regtest]
    );
}

#[test]
fn threshold_steps() {
    assert_eq!(threshold_step(1, 3, Event::IncrementPressed), Some(2));
    assert_eq!(threshold_step(3, 3, Event::IncrementPressed), None);
    assert_eq!(threshold_step(2, 3, Event::DecrementPressed), Some(1));
    assert_eq!(threshold_step(1, 3, Event::DecrementPressed), None);
    assert_eq!(threshold_step(usize::MAX - 1, usize::MAX, Event::IncrementPressed), Some(usize::MAX));
}

#[test]
fn threshold_step_undo() {
    for max in 1..6usize {
        for v in 1..=max {
            if let Some(w) = threshold_step(v, max, Event::IncrementPressed) {
                assert_eq!(threshold_step(w, max, Event::DecrementPressed), Some(v));
            }
            if let Some(w) = threshold_step(v, max, Event::DecrementPressed) {
                assert_eq!(threshold_step(w, max, Event::IncrementPressed), Some(v));
            }
        }
    }
}

#[test]
fn threshold_input_reports_through_on_change() {
    let input = threshsold_input(2, 4, |v: usize| format!("threshold {}", v));
    assert_eq!(input.value(), 2);
    assert_eq!(input.max(), 4);
    assert_eq!(input.label(), "2/4");
    assert_eq!(input.update(Event::IncrementPressed), Some("threshold 3".to_string()));
    assert_eq!(input.update(Event::DecrementPressed), Some("threshold 1".to_string()));
    let top = ThresholdInput::new(4, 4, |v: usize| v * 10);
    assert_eq!(top.update(Event::IncrementPressed), None);
    assert_eq!(top.update(Event::DecrementPressed), Some(30));
    let bottom = ThresholdInput::new(1, 4, |v: usize| v);
    assert_eq!(bottom.update(Event::DecrementPressed), None);
}
