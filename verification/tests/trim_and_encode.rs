use rugif::encode::lead_in_frames;
use rugif::trim::{frames_to_encode, wants_trim_dialog, TrimOutcome, TrimResult, TrimState};

#[test]
fn trim_starts_with_everything_selected() {
    let t = TrimState::new(10);
    assert_eq!((t.start_index(), t.end_index(), t.total()), (0, 9, 10));
    assert_eq!(t.selected_frames(), 10);
    let empty = TrimState::new(0);
    assert_eq!((empty.start_index(), empty.end_index()), (0, 0));
}

#[test]
fn trim_sliders_clamp() {
    let mut t = TrimState::new(10);
    t.set_end(4);
    assert_eq!(t.end_index(), 4);
    t.set_start(7);
    assert_eq!(t.start_index(), 4);
    t.set_start(2);
    t.set_end(1);
    assert_eq!(t.end_index(), 2);
    t.set_end(50);
    assert_eq!(t.end_index(), 9);
    assert_eq!(t.selected_frames(), 8);
}

#[test]
fn trim_saves_ranges() {
    let mut t = TrimState::new(10);
    t.set_start(3);
    t.set_end(6);
    match t.save_trimmed() {
        TrimResult::Save(r) => assert_eq!(r, 3..7),
        TrimResult::Cancel => panic!("expected a range"),
    }
    match t.save_full() {
        TrimResult::Save(r) => assert_eq!(r, 0..10),
        TrimResult::Cancel => panic!("expected a range"),
    }
}

#[test]
fn trim_dialog_only_for_several_frames() {
    assert!(wants_trim_dialog(true, 2));
    assert!(!wants_trim_dialog(true, 1));
    assert!(!wants_trim_dialog(false, 100));
}

#[test]
fn frames_chosen_for_encoding() {
    // 15 fps: the lead-in is 7 frames.
    assert_eq!(frames_to_encode(20, 15, TrimOutcome::Skipped), Some(7..20));
    assert_eq!(frames_to_encode(20, 15, TrimOutcome::Failed), Some(7..20));
    assert_eq!(frames_to_encode(5, 15, TrimOutcome::Skipped), Some(5..5));
    assert_eq!(frames_to_encode(5, 15, TrimOutcome::Chosen(TrimResult::Cancel)), None);
}

#[test]
fn trimmed_save_encodes_exactly_its_range() {
    assert_eq!(frames_to_encode(5, 15, TrimOutcome::Chosen(TrimResult::Save(1..3))), Some(1..3));
    assert_eq!(frames_to_encode(5, 30, TrimOutcome::Chosen(TrimResult::Save(0..5))), Some(0..5));
    assert_eq!(frames_to_encode(2, 15, TrimOutcome::Chosen(TrimResult::Save(0..1))), Some(0..1));
}

#[test]
fn lead_in_is_half_a_second_and_at_least_one_frame() {
    assert_eq!(lead_in_frames(15), 7);
    assert_eq!(lead_in_frames(30), 15);
    assert_eq!(lead_in_frames(1), 1);
    assert_eq!(lead_in_frames(0), 1);
    assert_eq!(lead_in_frames(255), 127);
    assert_eq!(frames_to_encode(3, 1, TrimOutcome::Skipped), Some(1..3));
}
