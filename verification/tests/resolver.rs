use bytebender::config::document::parse_document;
use bytebender::config::error::{ConfigError, Fault};
use bytebender::config::parser::{
    check_elements, check_param_exists, extract_u64_param, find_param, get_default,
    get_optional_default, parse_accelerate, parse_chaos, parse_compress, parse_expand,
    parse_increment, parse_loop, parse_multiply, parse_mutation, parse_mutations, parse_reverse,
    parse_shift, parse_shuffle, parse_swap, parse_u64_param, parse_voidout, range_bounds,
    real_setting, check_real_elements, Parsed, RealSetting,
};
use bytebender::config::tree::{Mapping, Node};
use bytebender::mutations2::{Instance, Mutation};
use rand::rngs::StdRng;
use rand::{RngCore, SeedableRng};

fn yaml(text: &str) -> Node {
    parse_document(text).unwrap()
}

fn table(text: &str) -> Mapping {
    match yaml(text) {
        Node::Mapping(mapping) => mapping,
        _ => panic!("expected a mapping"),
    }
}

fn failed<T>(result: Result<T, ConfigError>) -> (Fault, String) {
    match result {
        Ok(_) => panic!("expected a fault"),
        Err(error) => (error.fault, error.path),
    }
}

fn fault(kind: Fault, path: &str) -> (Fault, String) {
    (kind, path.to_string())
}

#[test]
fn an_exact_number_resolves_to_itself_and_draws_nothing() {
    let mut rng = StdRng::seed_from_u64(11);
    let mut twin = StdRng::seed_from_u64(11);
    for _ in 0..20 {
        assert_eq!(parse_u64_param(&mut rng, &yaml("42"), "a.b").unwrap(), 42);
    }
    assert_eq!(parse_u64_param(&mut rng, &Node::Unsigned(0), "a.b").unwrap(), 0);
    assert_eq!(parse_u64_param(&mut rng, &Node::Unsigned(u64::MAX), "a.b").unwrap(), u64::MAX);
    assert_eq!(rng.next_u64(), twin.next_u64());
}

#[test]
fn a_range_resolves_inside_its_bounds() {
    let mut rng = StdRng::seed_from_u64(12);
    let range = yaml("{min: 10, max: 15}");
    let mut seen = std::collections::BTreeSet::new();
    for _ in 0..500 {
        let v = parse_u64_param(&mut rng, &range, "a.b").unwrap();
        assert!(10 <= v && v < 15);
        seen.insert(v);
    }
    assert_eq!(seen.into_iter().collect::<Vec<u64>>(), vec![10, 11, 12, 13, 14]);
}

#[test]
fn a_range_of_one_resolves_to_its_min() {
    let mut rng = StdRng::seed_from_u64(13);
    for _ in 0..50 {
        assert_eq!(parse_u64_param(&mut rng, &yaml("{min: 7, max: 8}"), "a.b").unwrap(), 7);
    }
    let top = yaml("{min: 18446744073709551614, max: 18446744073709551615}");
    assert_eq!(parse_u64_param(&mut rng, &top, "a.b").unwrap(), u64::MAX - 1);
}

#[test]
fn a_range_without_values_is_a_fault() {
    let mut rng = StdRng::seed_from_u64(14);
    let mut twin = StdRng::seed_from_u64(14);
    let even = yaml("{min: 5, max: 5}");
    assert_eq!(failed(parse_u64_param(&mut rng, &even, "a.b")), fault(Fault::EmptyRange, "a.b"));
    let turned = yaml("{min: 6, max: 5}");
    assert_eq!(failed(parse_u64_param(&mut rng, &turned, "a.b")), fault(Fault::EmptyRange, "a.b"));
    assert_eq!(rng.next_u64(), twin.next_u64());
}

#[test]
fn range_bounds_are_both_required_and_typed() {
    assert_eq!(range_bounds(&table("{min: 1, max: 9}"), "p").unwrap(), (1, 9));
    assert_eq!(range_bounds(&table("{min: 9, max: 1}"), "p").unwrap(), (9, 1));
    let bounds = |text: &str| failed(range_bounds(&table(text), "p"));
    assert_eq!(bounds("{}"), fault(Fault::BoundMissing, "p.min"));
    assert_eq!(bounds("{max: x}"), fault(Fault::BoundMissing, "p.min"));
    assert_eq!(bounds("{min: x}"), fault(Fault::BoundMissing, "p.max"));
    assert_eq!(bounds("{min: x, max: y}"), fault(Fault::BoundKind, "p.min"));
    assert_eq!(bounds("{min: 1, max: -4}"), fault(Fault::BoundKind, "p.max"));
    assert_eq!(bounds("{min: 1.5, max: 4}"), fault(Fault::BoundKind, "p.min"));
    let error = range_bounds(&table("{}"), "defaults.compress.by").unwrap_err();
    assert_eq!((error.fault, error.path.as_str()), (Fault::BoundMissing, "defaults.compress.by.min"));
    assert_eq!(
        error.message(),
        "expected [defaults.compress.by.min] due to mapping - not present."
    );
}

#[test]
fn a_list_resolves_to_one_of_its_elements() {
    let mut rng = StdRng::seed_from_u64(15);
    let list = yaml("[3, 30, 300]");
    let mut seen = std::collections::BTreeSet::new();
    for _ in 0..500 {
        let v = parse_u64_param(&mut rng, &list, "a.b").unwrap();
        assert!(v == 3 || v == 30 || v == 300);
        seen.insert(v);
    }
    assert_eq!(seen.into_iter().collect::<Vec<u64>>(), vec![3, 30, 300]);
    assert_eq!(parse_u64_param(&mut rng, &yaml("[9]"), "a.b").unwrap(), 9);
}

#[test]
fn a_list_checks_every_element() {
    let mut rng = StdRng::seed_from_u64(16);
    let mut twin = StdRng::seed_from_u64(16);
    let mixed = yaml("[1, two, 3]");
    for _ in 0..200 {
        assert_eq!(
            failed(parse_u64_param(&mut rng, &mixed, "a.b")),
            fault(Fault::ElementKind, "a.b")
        );
    }
    let last = yaml("[1, 3, -1]");
    assert_eq!(failed(parse_u64_param(&mut rng, &last, "a.b")), fault(Fault::ElementKind, "a.b"));
    let empty = yaml("[]");
    assert_eq!(failed(parse_u64_param(&mut rng, &empty, "a.b")), fault(Fault::EmptyList, "a.b"));
    // a fault draws nothing
    assert_eq!(rng.next_u64(), twin.next_u64());
    assert!(check_elements(&vec![]));
    assert!(check_elements(&vec![Node::Unsigned(4), Node::Unsigned(0)]));
    assert!(!check_elements(&vec![Node::Unsigned(4), Node::Real(0)]));
    assert!(!check_elements(&vec![Node::Null]));
}

#[test]
fn other_nodes_do_not_resolve() {
    let mut rng = StdRng::seed_from_u64(17);
    for text in ["~", "true", "-1", "7.5", "seven"] {
        assert_eq!(
            failed(parse_u64_param(&mut rng, &yaml(text), "chaos.chunksize")),
            fault(Fault::Unreadable, "chaos.chunksize")
        );
    }
}

#[test]
fn defaults_are_looked_up_by_compound_key() {
    let root = yaml("defaults: {compress.by: 4, chunksize: 64}");
    assert_eq!(get_default(&root, "compress.by").unwrap().as_u64(), Some(4));
    assert_eq!(get_optional_default(&root, "compress.by").unwrap().unwrap().as_u64(), Some(4));
    assert!(get_optional_default(&root, "expand.by").unwrap().is_none());
    assert_eq!(failed(get_default(&root, "expand.by")), fault(Fault::NoDefault, "expand.by"));
}

#[test]
fn chunksize_falls_back_to_the_bare_key() {
    let root = yaml("defaults: {loop.chunksize: 8, chunksize: 64}");
    assert_eq!(get_default(&root, "loop.chunksize").unwrap().as_u64(), Some(8));
    assert_eq!(get_default(&root, "reverse.chunksize").unwrap().as_u64(), Some(64));
    assert_eq!(get_default(&root, "chunksize").unwrap().as_u64(), Some(64));
    assert_eq!(
        failed(get_default(&root, "reverse.chunksiz")),
        fault(Fault::NoDefault, "reverse.chunksiz")
    );
    assert_eq!(failed(get_default(&root, "loop.loopsize")), fault(Fault::NoDefault, "loop.loopsize"));
    let bare = yaml("defaults: {loop.by: 8}");
    assert_eq!(
        failed(get_default(&bare, "reverse.chunksize")),
        fault(Fault::NoDefault, "reverse.chunksize")
    );
}

#[test]
fn a_document_without_defaults_is_a_fault_when_one_is_needed() {
    let root = yaml("{}");
    assert_eq!(failed(get_default(&root, "loop.by")), fault(Fault::NoDefaults, "loop.by"));
    assert_eq!(failed(get_optional_default(&root, "loop.by")), fault(Fault::NoDefaults, "loop.by"));
    let own = table("by: 1");
    assert_eq!(check_param_exists(&root, &own, "loop", "by").unwrap(), true);
    assert_eq!(
        failed(check_param_exists(&root, &own, "loop", "chunksize")),
        fault(Fault::NoDefaults, "loop.chunksize")
    );
}

#[test]
fn a_property_exists_on_the_entry_or_among_the_defaults() {
    let root = yaml("defaults: {loop.by: 1, chunksize: ~}");
    let own = table("loopsize: 1");
    assert!(check_param_exists(&root, &own, "loop", "loopsize").unwrap());
    assert!(check_param_exists(&root, &own, "loop", "by").unwrap());
    assert!(check_param_exists(&root, &own, "loop", "chunksize").unwrap());
    assert!(!check_param_exists(&root, &own, "loop", "after").unwrap());
}

#[test]
fn an_explicit_property_wins_over_the_default() {
    let mut rng = StdRng::seed_from_u64(18);
    let root = yaml("defaults: {compress.by: 4}");
    let own = table("by: 2");
    assert_eq!(extract_u64_param(&mut rng, &own, &root, "compress", "by").unwrap(), 2);
    let (found, path) = find_param(&own, &root, "compress", "by").unwrap();
    assert_eq!((found.as_u64(), path.as_str()), (Some(2), "compress.by"));
    let empty = table("{}");
    assert_eq!(extract_u64_param(&mut rng, &empty, &root, "compress", "by").unwrap(), 4);
    let (found, path) = find_param(&empty, &root, "compress", "by").unwrap();
    assert_eq!((found.as_u64(), path.as_str()), (Some(4), "defaults.compress.by"));
}

#[test]
fn a_default_resolves_by_its_own_shape() {
    let mut rng = StdRng::seed_from_u64(19);
    let root = yaml("defaults: {compress.by: {min: 2, max: 5}, chunksize: [16, 32]}");
    let empty = table("{}");
    for _ in 0..100 {
        let by = extract_u64_param(&mut rng, &empty, &root, "compress", "by").unwrap();
        assert!(2 <= by && by < 5);
        let size = extract_u64_param(&mut rng, &empty, &root, "compress", "chunksize").unwrap();
        assert!(size == 16 || size == 32);
    }
}

#[test]
fn faults_in_a_default_name_the_defaults_path() {
    let mut rng = StdRng::seed_from_u64(20);
    let root = yaml("defaults: {compress.by: {min: 1}}");
    let empty = table("{}");
    let error = extract_u64_param(&mut rng, &empty, &root, "compress", "by").unwrap_err();
    assert_eq!((error.fault, error.path.as_str()), (Fault::BoundMissing, "defaults.compress.by.max"));
    assert_eq!(
        error.message(),
        "expected [defaults.compress.by.max] due to mapping - not present."
    );
    assert_eq!(
        failed(extract_u64_param(&mut rng, &table("by: x"), &root, "compress", "by")),
        fault(Fault::Unreadable, "compress.by")
    );
    assert_eq!(
        failed(extract_u64_param(&mut rng, &empty, &root, "compress", "chunksize")),
        fault(Fault::NoDefault, "compress.chunksize")
    );
}

#[test]
fn every_variant_is_read_from_its_entry() {
    let mut rng = StdRng::seed_from_u64(21);
    let rng = &mut rng;
    let root = yaml("defaults: {chunksize: 64}");

    assert_eq!(parse_chaos(rng, &table("chaos: {}"), &root).unwrap().chunksize, 64);
    assert_eq!(parse_reverse(rng, &table("reverse: {}"), &root).unwrap().chunksize, 64);
    assert_eq!(parse_shuffle(rng, &table("shuffle: {}"), &root).unwrap().chunksize, 64);
    assert_eq!(parse_voidout(rng, &table("voidout: {chunksize: 5}"), &root).unwrap().chunksize, 5);
    assert_eq!(parse_swap(rng, &table("swap: {}"), &root).unwrap().chunksize, 64);

    let made = parse_expand(rng, &table("expand: {by: 3}"), &root).unwrap();
    assert_eq!((made.by, made.chunksize), (3, 64));
    let made = parse_compress(rng, &table("compress: {by: 2}"), &root).unwrap();
    assert_eq!((made.by, made.chunksize), (2, 64));
    let made = parse_increment(rng, &table("increment: {by: 9}"), &root).unwrap();
    assert_eq!((made.by, made.chunksize), (9, 64));
    let made = parse_loop(rng, &table("loop: {loopsize: 4}"), &root).unwrap();
    assert_eq!((made.loopsize, made.chunksize), (4, 64));
    let made = parse_shift(rng, &table("shift: {by: 7, from: 99}"), &root).unwrap();
    assert_eq!((made.from, made.by, made.chunksize), (0, 7, 64));
    let made = parse_accelerate(rng, &table("accelerate: {from: 1, by: 2, after: 3}"), &root);
    let made = made.unwrap();
    assert_eq!((made.from, made.by, made.after, made.chunksize), (1, 2, 3, 64));
}

#[test]
fn swap_reads_its_chunksize_only() {
    let mut rng = StdRng::seed_from_u64(31);
    let root = yaml("defaults: {}");
    let made = parse_swap(&mut rng, &table("swap: {chunksize: 12}"), &root).unwrap();
    assert_eq!(made.chunksize, 12);
}

#[test]
fn accelerate_reads_its_own_chunksize_default() {
    let mut rng = StdRng::seed_from_u64(22);
    let root = yaml(
        "defaults:
  accelerate.chunksize: 11
  reverse.chunksize: 22
  accelerate.from: 1
  accelerate.by: 2
  accelerate.after: 3
",
    );
    let made = parse_accelerate(&mut rng, &table("accelerate: {}"), &root).unwrap();
    assert_eq!((made.from, made.by, made.after, made.chunksize), (1, 2, 3, 11));
}

#[test]
fn the_first_unresolved_property_is_reported() {
    let mut rng = StdRng::seed_from_u64(23);
    let root = yaml("defaults: {}");
    let mut read = |text: &str| failed(parse_accelerate(&mut rng, &table(text), &root));
    assert_eq!(read("accelerate: {}"), fault(Fault::NoDefault, "accelerate.from"));
    assert_eq!(read("accelerate: {by: x}"), fault(Fault::NoDefault, "accelerate.from"));
    assert_eq!(read("accelerate: {from: 1}"), fault(Fault::NoDefault, "accelerate.by"));
    assert_eq!(read("accelerate: {from: 1, by: 1}"), fault(Fault::NoDefault, "accelerate.after"));
    assert_eq!(
        read("accelerate: {from: 1, by: 1, after: 1}"),
        fault(Fault::NoDefault, "accelerate.chunksize")
    );
    assert_eq!(
        read("accelerate: {from: 1, by: [], after: x, chunksize: 4}"),
        fault(Fault::EmptyList, "accelerate.by")
    );
    assert_eq!(
        failed(parse_loop(&mut rng, &table("loop: {loopsize: 1}"), &root)),
        fault(Fault::NoDefault, "loop.chunksize")
    );
    assert_eq!(
        failed(parse_loop(&mut rng, &table("loop: {}"), &root)),
        fault(Fault::NoDefault, "loop.chunksize")
    );
}

#[test]
fn the_body_of_an_entry_must_be_a_mapping() {
    let mut rng = StdRng::seed_from_u64(24);
    let root = yaml("defaults: {chunksize: 64}");
    assert_eq!(
        failed(parse_chaos(&mut rng, &table("chaos: ~"), &root)),
        fault(Fault::NotMap, "chaos")
    );
    assert_eq!(failed(parse_swap(&mut rng, &table("swap: 3"), &root)), fault(Fault::NotMap, "swap"));
    assert_eq!(
        failed(parse_chaos(&mut rng, &table("swap: {}"), &root)),
        fault(Fault::Missing, "chaos")
    );
}

#[test]
fn a_mutation_is_read_by_its_name() {
    let mut rng = StdRng::seed_from_u64(25);
    let root = yaml("defaults: {chunksize: 64}");
    match parse_mutation(&mut rng, &table("increment: {by: 5}"), &root).unwrap() {
        Parsed::Ready(Instance::Increment(made)) => assert_eq!((made.by, made.chunksize), (5, 64)),
        _ => panic!("expected an increment"),
    }
    match parse_mutation(&mut rng, &table("swap: {}"), &root).unwrap() {
        Parsed::Ready(instance) => {
            assert_eq!(instance.get_name(), "swap");
            assert_eq!(instance.get_chunksize(), 64);
        },
        Parsed::Multiply(_) => panic!("expected a swap"),
    }
}

#[test]
fn multiply_hands_its_factor_to_the_caller() {
    let mut rng = StdRng::seed_from_u64(26);
    let root = yaml("defaults: {chunksize: 64, multiply.by: 1.5}");
    let entry = table("multiply: {by: {min: 1, max: 3}}");
    let made = parse_multiply(&mut rng, &entry, &root).unwrap();
    assert_eq!((made.by_path.as_str(), made.chunksize), ("multiply.by", 64));
    match made.by {
        RealSetting::Range { min, max } => assert_eq!((min.as_u64(), max.as_u64()), (Some(1), Some(3))),
        _ => panic!("expected a range"),
    }
    let entry = table("multiply: {chunksize: 8}");
    match parse_mutation(&mut rng, &entry, &root).unwrap() {
        Parsed::Multiply(made) => {
            assert_eq!((made.by_path.as_str(), made.chunksize), ("defaults.multiply.by", 8));
            assert!(matches!(made.by, RealSetting::Exact(Node::Real(0x3FF8_0000_0000_0000))));
        },
        Parsed::Ready(_) => panic!("expected a multiply"),
    }
    let bare = yaml("defaults: {chunksize: 64}");
    assert_eq!(
        failed(parse_multiply(&mut rng, &entry, &bare)),
        fault(Fault::NoDefault, "multiply.by")
    );
    assert_eq!(
        failed(parse_multiply(&mut rng, &table("multiply: {by: 2, chunksize: x}"), &bare)),
        fault(Fault::Unreadable, "multiply.chunksize")
    );
    assert_eq!(
        failed(parse_multiply(&mut rng, &table("multiply: {by: [1, x], chunksize: y}"), &bare)),
        fault(Fault::ElementNotNumber, "multiply.by")
    );
}

#[test]
fn a_real_setting_has_one_of_three_shapes() {
    for text in ["3", "-3", "2.5"] {
        assert!(matches!(real_setting(&yaml(text), "p").unwrap(), RealSetting::Exact(_)));
    }
    let range = yaml("{min: -1.5, max: 4}");
    match real_setting(&range, "p").unwrap() {
        RealSetting::Range { min, max } => {
            assert!(matches!(min, Node::Real(_)));
            assert_eq!(max.as_u64(), Some(4));
        },
        _ => panic!("expected a range"),
    }
    // bounds are not compared here
    assert!(matches!(real_setting(&yaml("{min: 4, max: 1}"), "p"), Ok(RealSetting::Range { .. })));
    let list = yaml("[1, -2, 0.5]");
    match real_setting(&list, "p").unwrap() {
        RealSetting::Choice(options) => assert_eq!(options.len(), 3),
        _ => panic!("expected a list"),
    }
}

#[test]
fn a_real_setting_names_its_faults() {
    let settle = |text: &str| failed(real_setting(&yaml(text), "multiply.by"));
    assert_eq!(settle("{}"), fault(Fault::BoundMissing, "multiply.by.min"));
    assert_eq!(settle("{max: 1}"), fault(Fault::BoundMissing, "multiply.by.min"));
    assert_eq!(settle("{min: 1}"), fault(Fault::BoundMissing, "multiply.by.max"));
    assert_eq!(settle("{min: x, max: y}"), fault(Fault::BoundNotNumber, "multiply.by.min"));
    assert_eq!(settle("{min: 1, max: y}"), fault(Fault::BoundNotNumber, "multiply.by.max"));
    assert_eq!(settle("[]"), fault(Fault::EmptyList, "multiply.by"));
    assert_eq!(settle("[1, 2.5, x]"), fault(Fault::ElementNotNumber, "multiply.by"));
    assert_eq!(settle("[[1]]"), fault(Fault::ElementNotNumber, "multiply.by"));
    assert_eq!(settle("x"), fault(Fault::Unreadable, "multiply.by"));
    assert_eq!(settle("~"), fault(Fault::Unreadable, "multiply.by"));
    assert_eq!(settle("true"), fault(Fault::Unreadable, "multiply.by"));
    assert!(check_real_elements(&vec![]));
    assert!(check_real_elements(&vec![Node::Unsigned(1), Node::Negative(-1), Node::Real(0)]));
    assert!(!check_real_elements(&vec![Node::Unsigned(1), Node::Null]));
}

#[test]
fn exact_settings_leave_the_generator_alone() {
    let mut rng = StdRng::seed_from_u64(32);
    let mut twin = StdRng::seed_from_u64(32);
    let root = yaml(
        "defaults: {chunksize: 64}
mutations:
  - reverse: {chunksize: 9}
  - accelerate: {from: 1, by: 2, after: 3, chunksize: 4}
  - multiply: {by: {min: 1, max: 2}}
  - swap: {}
",
    );
    for _ in 0..5 {
        assert_eq!(parse_reverse(&mut rng, &table("reverse: {chunksize: 9}"), &root).unwrap().chunksize, 9);
        let entry = table("accelerate: {from: 1, by: 2, after: 3, chunksize: 4}");
        let made = parse_accelerate(&mut rng, &entry, &root).unwrap();
        assert_eq!((made.from, made.by, made.after, made.chunksize), (1, 2, 3, 4));
        assert_eq!(extract_u64_param(&mut rng, &table("{}"), &root, "loop", "chunksize").unwrap(), 64);
        assert_eq!(parse_mutations(&mut rng, &root).unwrap().len(), 4);
    }
    // faults draw nothing either
    assert!(parse_loop(&mut rng, &table("loop: {chunksize: 4}"), &root).is_err());
    assert!(parse_mutations(&mut rng, &yaml("mutations: [{melt: {}}]")).is_err());
    assert_eq!(rng.next_u64(), twin.next_u64());
    // a range draws
    parse_reverse(&mut rng, &table("reverse: {chunksize: {min: 1, max: 9}}"), &root).unwrap();
    assert_ne!(rng.next_u64(), twin.next_u64());
}

#[test]
fn a_mutation_entry_must_name_a_mutation() {
    let mut rng = StdRng::seed_from_u64(27);
    let root = yaml("defaults: {chunksize: 64}");
    assert_eq!(
        failed(parse_mutation(&mut rng, &table("melt: {}"), &root)),
        fault(Fault::UnknownMutation, "melt")
    );
    assert_eq!(
        failed(parse_mutation(&mut rng, &table("1: {}"), &root)),
        fault(Fault::NameNotText, "mutations")
    );
    assert_eq!(
        failed(parse_mutation(&mut rng, &Mapping::new(), &root)),
        fault(Fault::KeyCount { found: 0 }, "mutations")
    );
}

#[test]
fn the_list_of_mutations_is_read_in_order() {
    let mut rng = StdRng::seed_from_u64(28);
    let root = yaml(
        "defaults: {chunksize: 64}
mutations:
  - reverse: {}
  - compress: {by: 2, chunksize: 8}
  - multiply: {by: 2}
  - shift: {by: 3}
",
    );
    let made = parse_mutations(&mut rng, &root).unwrap();
    assert_eq!(made.len(), 4);
    let names: Vec<String> = made
        .iter()
        .map(|m| match m {
            Parsed::Ready(instance) => format!("{}{}", instance.get_name(), instance.get_details()),
            Parsed::Multiply(setting) => format!("multiply@{}", setting.by_path),
        })
        .collect();
    assert_eq!(
        names,
        vec!["reverse[none]", "compress[by=2]", "multiply@multiply.by", "shift[from=0 by=3]"]
    );
    assert!(parse_mutations(&mut rng, &yaml("mutations: []")).unwrap().is_empty());
}

#[test]
fn parameters_are_resolved_afresh_on_every_read() {
    let mut rng = StdRng::seed_from_u64(29);
    let root = yaml("mutations: [{reverse: {chunksize: {min: 0, max: 1000}}}]");
    let mut seen = std::collections::BTreeSet::new();
    for _ in 0..50 {
        match &parse_mutations(&mut rng, &root).unwrap()[0] {
            Parsed::Ready(instance) => {
                assert!(instance.get_chunksize() < 1000);
                seen.insert(instance.get_chunksize());
            },
            Parsed::Multiply(_) => panic!("expected a reverse"),
        }
    }
    assert!(seen.len() > 10);
}

#[test]
fn faults_in_the_list_of_mutations() {
    let mut rng = StdRng::seed_from_u64(30);
    let mut read = |text: &str| failed(parse_mutations(&mut rng, &yaml(text)));
    assert_eq!(read("defaults: {chunksize: 64}"), fault(Fault::Missing, "mutations"));
    assert_eq!(read("mutations: {}"), fault(Fault::NotList, "mutations"));
    assert_eq!(
        read("{defaults: {chunksize: 64}, mutations: [{reverse: {}}, reverse]}"),
        fault(Fault::NotMap, "mutations.1")
    );
    assert_eq!(
        read("{defaults: {chunksize: 64}, mutations: [{reverse: {}, chaos: {}}]}"),
        fault(Fault::KeyCount { found: 2 }, "mutations.0")
    );
    assert_eq!(
        read("{defaults: {chunksize: 64}, mutations: [{}]}"),
        fault(Fault::KeyCount { found: 0 }, "mutations.0")
    );
    assert_eq!(
        read("{defaults: {chunksize: 64}, mutations: [{reverse: {}}, {melt: {}}]}"),
        fault(Fault::UnknownMutation, "melt")
    );
    assert_eq!(
        read("{defaults: {chunksize: 64}, mutations: [{loop: {}}]}"),
        fault(Fault::NoDefault, "loop.loopsize")
    );
    assert_eq!(
        read("{defaults: {chunksize: 64}, mutations: [{reverse: {}}, {swap: {}}, {7: {}}]}"),
        fault(Fault::NameNotText, "mutations.2")
    );
    assert_eq!(
        read("{defaults: {chunksize: 64}, mutations: [{!tag reverse: {}}]}"),
        fault(Fault::NameNotText, "mutations.0")
    );
}
