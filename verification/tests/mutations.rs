use bytebender::mutations2::global::{Shift, Swap};
use bytebender::mutations2::local::{
    Accelerate, Chaos, Compress, Expand, Increment, Loop, Reverse, Shuffle, Voidout,
};
use bytebender::mutations2::{AreaType, Instance, Mutation, MutationKind};

#[test]
fn increment_wraps_at_256() {
    let mut window = [10u8, 20, 255];
    Increment { by: 1, chunksize: 3 }.bend(&mut window);
    assert_eq!(window, [11, 21, 0]);
}

#[test]
fn increment_by_a_large_amount_is_taken_modulo_256() {
    let mut window = [0u8, 1, 200];
    Increment { by: 256 * 7 + 100, chunksize: 3 }.bend(&mut window);
    assert_eq!(window, [100, 101, 44]);
    let mut window = [3u8];
    Increment { by: usize::MAX, chunksize: 1 }.bend(&mut window);
    assert_eq!(window, [2]);
}

#[test]
fn reverse_reverses() {
    let mut window = [1u8, 2, 3, 4];
    Reverse { chunksize: 4 }.bend(&mut window);
    assert_eq!(window, [4, 3, 2, 1]);
}

#[test]
fn reverse_twice_is_identity() {
    let pristine = [7u8, 0, 9, 9, 3];
    let mut window = pristine;
    let reverse = Reverse { chunksize: 5 };
    reverse.bend(&mut window);
    assert_eq!(window, [3, 9, 9, 0, 7]);
    reverse.bend(&mut window);
    assert_eq!(window, pristine);
}

#[test]
fn reverse_of_empty_and_single() {
    let mut empty: [u8; 0] = [];
    Reverse { chunksize: 0 }.bend(&mut empty);
    let mut one = [5u8];
    Reverse { chunksize: 1 }.bend(&mut one);
    assert_eq!(one, [5]);
}

#[test]
fn voidout_zeroes_any_window() {
    let mut window = [1u8, 255, 0, 42];
    Voidout { chunksize: 4 }.bend(&mut window);
    assert_eq!(window, [0, 0, 0, 0]);
    let mut one = [9u8];
    Voidout { chunksize: 1 }.bend(&mut one);
    assert_eq!(one, [0]);
}

#[test]
fn loop_repeats_the_head() {
    let mut window = [9u8, 8, 1, 1, 1, 1];
    Loop { loopsize: 2, chunksize: 6 }.bend(&mut window);
    assert_eq!(window, [9, 8, 9, 8, 9, 8]);
}

#[test]
fn loop_with_uneven_tail() {
    let mut window = [1u8, 2, 3, 0, 0, 0, 0];
    Loop { loopsize: 3, chunksize: 7 }.bend(&mut window);
    assert_eq!(window, [1, 2, 3, 1, 2, 3, 1]);
}

#[test]
fn loop_accepts_only_a_head_shorter_than_the_window() {
    let looped = Loop { loopsize: 2, chunksize: 6 };
    assert!(looped.accepts(3));
    assert!(!looped.accepts(2));
    assert!(!looped.accepts(1));
    assert!(!Loop { loopsize: 0, chunksize: 6 }.accepts(6));
}

#[test]
fn compress_stutters() {
    let mut window = [5u8, 6, 7, 8];
    Compress { by: 2, chunksize: 4 }.bend(&mut window);
    assert_eq!(window, [5, 5, 6, 6]);
}

#[test]
fn compress_by_one_changes_nothing() {
    let mut window = [5u8, 6, 7, 8];
    Compress { by: 1, chunksize: 4 }.bend(&mut window);
    assert_eq!(window, [5, 6, 7, 8]);
}

#[test]
fn compress_refuses_a_zero_factor() {
    assert!(!Compress { by: 0, chunksize: 4 }.accepts(4));
    assert!(Compress { by: 3, chunksize: 4 }.accepts(4));
}

#[test]
fn expand_reads_with_a_stride() {
    let mut window = [10u8, 11, 12, 13, 14];
    Expand { by: 2, chunksize: 5 }.bend(&mut window);
    assert_eq!(window, [10, 12, 14, 11, 13]);
    let mut window = [1u8, 2, 3, 4];
    Expand { by: 2, chunksize: 4 }.bend(&mut window);
    assert_eq!(window, [1, 3, 1, 3]);
}

#[test]
fn expand_with_a_huge_stride_stays_inside() {
    let mut window = [1u8, 2, 3];
    Expand { by: usize::MAX, chunksize: 3 }.bend(&mut window);
    let at = |i: u128| ((i * usize::MAX as u128) % 3) as usize;
    assert_eq!(window, [[1u8, 2, 3][at(0)], [1u8, 2, 3][at(1)], [1u8, 2, 3][at(2)]]);
}

#[test]
fn accelerate_ramps() {
    let mut window = [0u8, 0, 0, 0, 0, 0];
    Accelerate { from: 1, by: 10, after: 2, chunksize: 6 }.bend(&mut window);
    assert_eq!(window, [1, 1, 11, 11, 21, 21]);
    let mut window = [250u8, 250, 250];
    Accelerate { from: 3, by: 2, after: 1, chunksize: 3 }.bend(&mut window);
    assert_eq!(window, [253, 255, 1]);
}

#[test]
fn accelerate_with_huge_parameters_is_taken_modulo_256() {
    let mut window = [1u8, 1, 1];
    Accelerate { from: usize::MAX, by: usize::MAX, after: 1, chunksize: 3 }.bend(&mut window);
    // usize::MAX is 255 modulo 256
    assert_eq!(window, [0, 255, 254]);
    assert!(!Accelerate { from: 0, by: 1, after: 0, chunksize: 3 }.accepts(3));
}

#[test]
fn chaos_keeps_the_length_and_changes_bytes() {
    let mut window = vec![0u8; 4096];
    Chaos { chunksize: 4096 }.bend(&mut window);
    assert_eq!(window.len(), 4096);
    assert!(window.iter().any(|b| *b != 0));
}

#[test]
fn shuffle_permutes() {
    let pristine: Vec<u8> = (0u8..=255).collect();
    let mut window = pristine.clone();
    Shuffle { chunksize: 256 }.bend(&mut window);
    assert_ne!(window, pristine);
    let mut sorted = window.clone();
    sorted.sort();
    assert_eq!(sorted, pristine);
}

#[test]
fn swap_exchanges_two_windows() {
    // with six bytes and windows of two the only choice is split 3, windows at 0 and 3
    let mut buffer = [1u8, 2, 3, 4, 5, 6];
    let swap = Swap { chunksize: 2 };
    assert!(swap.accepts(6));
    swap.bend(&mut buffer);
    assert_eq!(buffer, [4, 5, 3, 1, 2, 6]);
}

#[test]
fn swap_keeps_the_bytes() {
    let pristine: Vec<u8> = (0u8..200).collect();
    let mut outcomes = std::collections::BTreeSet::new();
    for _ in 0..50 {
        let mut buffer = pristine.clone();
        Swap { chunksize: 16 }.bend(&mut buffer);
        assert_ne!(buffer, pristine);
        let moved = buffer.iter().zip(pristine.iter()).filter(|(a, b)| a != b).count();
        assert_eq!(moved, 32);
        outcomes.insert(buffer.clone());
        buffer.sort();
        assert_eq!(buffer, pristine);
    }
    // the windows are drawn anew every time
    assert!(outcomes.len() > 10);
}

#[test]
fn swap_needs_room_on_both_sides() {
    let swap = Swap { chunksize: 2 };
    assert!(!swap.accepts(5));
    assert!(!swap.accepts(0));
    assert!(!swap.accepts(1));
    assert!(Swap { chunksize: 0 }.accepts(2));
    assert!(!Swap { chunksize: usize::MAX }.accepts(usize::MAX));
}

#[test]
fn shift_moves_a_window_forward() {
    // with three bytes, a window of one and a distance of one the only offset is 0
    let mut buffer = [1u8, 2, 3];
    let shift = Shift { from: 0, by: 1, chunksize: 1 };
    assert!(shift.accepts(3));
    shift.bend(&mut buffer);
    assert_eq!(buffer, [2, 1, 3]);
    let mut buffer = [1u8, 2, 3, 4, 5, 6];
    Shift { from: 0, by: 3, chunksize: 2 }.bend(&mut buffer);
    assert_eq!(buffer, [3, 4, 5, 1, 2, 6]);
}

#[test]
fn shift_ignores_its_configured_offset() {
    let mut buffer = [1u8, 2, 3];
    Shift { from: 40, by: 1, chunksize: 1 }.bend(&mut buffer);
    assert_eq!(buffer, [2, 1, 3]);
}

#[test]
fn shift_needs_room_for_the_move() {
    let shift = Shift { from: 0, by: 2, chunksize: 3 };
    assert!(shift.accepts(6));
    assert!(!shift.accepts(5));
    assert!(!Shift { from: 0, by: usize::MAX, chunksize: 3 }.accepts(10));
}

#[test]
fn shift_keeps_the_bytes() {
    let pristine: Vec<u8> = (0u8..100).collect();
    let mut outcomes = std::collections::BTreeSet::new();
    for _ in 0..50 {
        let mut buffer = pristine.clone();
        Shift { from: 0, by: 7, chunksize: 5 }.bend(&mut buffer);
        assert_ne!(buffer, pristine);
        let moved = buffer.iter().zip(pristine.iter()).filter(|(a, b)| a != b).count();
        assert_eq!(moved, 12);
        outcomes.insert(buffer.clone());
        buffer.sort();
        assert_eq!(buffer, pristine);
    }
    // the window is drawn anew every time
    assert!(outcomes.len() > 10);
}

#[test]
fn names_types_and_chunk_sizes() {
    assert_eq!(Chaos { chunksize: 1 }.get_name(), "chaos");
    assert_eq!(Compress { by: 1, chunksize: 2 }.get_name(), "compress");
    assert_eq!(Expand { by: 1, chunksize: 3 }.get_name(), "expand");
    assert_eq!(Accelerate { from: 0, by: 1, after: 1, chunksize: 4 }.get_name(), "accelerate");
    assert_eq!(Increment { by: 1, chunksize: 5 }.get_name(), "increment");
    assert_eq!(Loop { loopsize: 1, chunksize: 6 }.get_name(), "loop");
    assert_eq!(Reverse { chunksize: 7 }.get_name(), "reverse");
    assert_eq!(Shuffle { chunksize: 8 }.get_name(), "shuffle");
    assert_eq!(Voidout { chunksize: 9 }.get_name(), "voidout");
    assert_eq!(Swap { chunksize: 10 }.get_name(), "swap");
    assert_eq!(Shift { from: 0, by: 1, chunksize: 11 }.get_name(), "shift");
    assert_eq!(Reverse { chunksize: 7 }.get_chunksize(), 7);
    assert_eq!(Swap { chunksize: 10 }.get_chunksize(), 10);
    assert_eq!(Reverse { chunksize: 7 }.get_type(), AreaType::Local);
    assert_eq!(Chaos { chunksize: 7 }.get_type(), AreaType::Local);
    assert_eq!(Swap { chunksize: 10 }.get_type(), AreaType::Global);
    assert_eq!(Shift { from: 0, by: 1, chunksize: 11 }.get_type(), AreaType::Global);
}

#[test]
fn details_show_the_parameters() {
    assert_eq!(Chaos { chunksize: 1 }.get_details(), "[none]");
    assert_eq!(Reverse { chunksize: 1 }.get_details(), "[none]");
    assert_eq!(Swap { chunksize: 1 }.get_details(), "[none]");
    assert_eq!(Compress { by: 12, chunksize: 2 }.get_details(), "[by=12]");
    assert_eq!(Expand { by: 0, chunksize: 2 }.get_details(), "[by=0]");
    assert_eq!(Increment { by: 1050, chunksize: 2 }.get_details(), "[by=1050]");
    assert_eq!(Loop { loopsize: 9, chunksize: 20 }.get_details(), "[loopsize=9]");
    assert_eq!(
        Accelerate { from: 1, by: 20, after: 300, chunksize: 2 }.get_details(),
        "[by=20 after=300]"
    );
    assert_eq!(Shift { from: 4, by: 17, chunksize: 2 }.get_details(), "[from=4 by=17]");
}

#[test]
fn an_instance_behaves_as_its_variant() {
    let instance = Instance::Increment(Increment { by: 1, chunksize: 3 });
    assert_eq!(instance.get_name(), "increment");
    assert_eq!(instance.get_details(), "[by=1]");
    assert_eq!(instance.get_chunksize(), 3);
    assert_eq!(instance.get_type(), AreaType::Local);
    let mut window = [10u8, 20, 255];
    instance.bend(&mut window);
    assert_eq!(window, [11, 21, 0]);
    let global = Instance::Swap(Swap { chunksize: 2 });
    assert_eq!(global.get_type(), AreaType::Global);
    assert!(global.accepts(6));
    assert!(!global.accepts(5));
}

#[test]
fn kinds_by_name() {
    let names = [
        ("chaos", MutationKind::Chaos),
        ("expand", MutationKind::Expand),
        ("compress", MutationKind::Compress),
        ("accelerate", MutationKind::Accelerate),
        ("increment", MutationKind::Increment),
        ("loop", MutationKind::Loop),
        ("multiply", MutationKind::Multiply),
        ("reverse", MutationKind::Reverse),
        ("shuffle", MutationKind::Shuffle),
        ("voidout", MutationKind::Voidout),
        ("swap", MutationKind::Swap),
        ("shift", MutationKind::Shift),
    ];
    for (name, kind) in names {
        assert_eq!(MutationKind::from(name).unwrap(), kind);
    }
}

#[test]
fn an_unknown_kind_is_a_fault() {
    let error = MutationKind::from("melt").unwrap_err();
    assert_eq!(error.fault, bytebender::config::error::Fault::UnknownMutation);
    assert_eq!(error.path, "melt");
    assert_eq!(error.message(), "[melt] is not a valid mutation.");
    assert!(MutationKind::from("Chaos").is_err());
    assert!(MutationKind::from("").is_err());
}
