use deejay::channel::MAX_CAPACITY;
use deejay::{parameter_channel, DeckId, Level, ParameterUpdate};

fn level(value: f32) -> Level {
    Level { bits: value.to_bits() }
}

#[test]
fn channel_reports_the_capacity_it_was_made_with() {
    let (_tx, rx) = parameter_channel(4);
    assert_eq!(rx.limit(), 4);
    let (_tx, rx) = parameter_channel(1);
    assert_eq!(rx.limit(), 1);
    let (_tx, rx) = parameter_channel(37);
    assert_eq!(rx.limit(), 37);
}

#[test]
fn capacity_bound_is_what_one_allocation_holds() {
    assert_eq!(MAX_CAPACITY, isize::MAX as usize / 16);
    assert!(MAX_CAPACITY.checked_mul(16).is_some());
    assert!(MAX_CAPACITY * 16 <= isize::MAX as usize);
    assert!(std::mem::size_of::<ParameterUpdate>() <= 8);
}

#[test]
fn empty_channel_pops_nothing() {
    let (_tx, rx) = parameter_channel(2);
    assert_eq!(rx.pop(), None);
}

#[test]
fn receiver_takes_what_the_sender_sent() {
    let (tx, rx) = parameter_channel(2);
    let update = ParameterUpdate::MasterGain(level(0.8));
    assert_eq!(tx.send(update), Ok(()));
    assert_eq!(rx.pop(), Some(update));
    assert_eq!(rx.pop(), None);
}

#[test]
fn updates_come_out_in_the_order_sent() {
    let (tx, rx) = parameter_channel(4);
    let sent = vec![
        ParameterUpdate::DeckGain { deck: DeckId::A, gain: level(0.5) },
        ParameterUpdate::DeckGain { deck: DeckId::B, gain: level(1.5) },
        ParameterUpdate::Crossfader(level(0.25)),
        ParameterUpdate::MasterGain(level(0.8)),
    ];
    for update in &sent {
        assert_eq!(tx.send(*update), Ok(()));
    }
    for update in &sent {
        assert_eq!(rx.pop(), Some(*update));
    }
    assert_eq!(rx.pop(), None);
}

#[test]
fn full_channel_hands_the_update_back_unchanged() {
    for capacity in [1usize, 2, 3, 8] {
        let (tx, rx) = parameter_channel(capacity);
        for step in 0..capacity {
            let update = ParameterUpdate::Crossfader(Level { bits: step as u32 });
            assert_eq!(tx.send(update), Ok(()));
        }
        let late = ParameterUpdate::DeckGain { deck: DeckId::B, gain: level(-3.5) };
        assert_eq!(tx.send(late), Err(late));
        assert_eq!(tx.send(late), Err(late));

        assert_eq!(rx.pop(), Some(ParameterUpdate::Crossfader(Level { bits: 0 })));
        assert_eq!(tx.send(late), Ok(()));
        assert_eq!(tx.send(late), Err(late));
    }
}

#[test]
fn rejected_update_is_not_delivered() {
    let (tx, rx) = parameter_channel(1);
    let first = ParameterUpdate::MasterGain(level(0.25));
    let second = ParameterUpdate::MasterGain(level(0.75));
    assert_eq!(tx.send(first), Ok(()));
    assert_eq!(tx.send(second), Err(second));
    assert_eq!(rx.pop(), Some(first));
    assert_eq!(rx.pop(), None);
}

#[test]
fn cloned_sender_feeds_the_same_channel() {
    let (tx, rx) = parameter_channel(2);
    let other = tx.clone();
    let one = ParameterUpdate::Crossfader(level(0.1));
    let two = ParameterUpdate::Crossfader(level(0.9));
    assert_eq!(tx.send(one), Ok(()));
    assert_eq!(other.send(two), Ok(()));
    assert_eq!(tx.send(one), Err(one));
    assert_eq!(rx.pop(), Some(one));
    assert_eq!(rx.pop(), Some(two));
}

#[test]
fn channels_are_separate() {
    let (tx_one, rx_one) = parameter_channel(2);
    let (_tx_two, rx_two) = parameter_channel(2);
    assert_eq!(tx_one.send(ParameterUpdate::MasterGain(level(2.0))), Ok(()));
    assert_eq!(rx_two.pop(), None);
    assert_eq!(rx_one.pop(), Some(ParameterUpdate::MasterGain(level(2.0))));
}
