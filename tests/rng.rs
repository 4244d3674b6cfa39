use bevy_rng::{Rng, RngPlugin, RootRng, Seed};

fn root_from_number(n: u64) -> RootRng {
    RngPlugin::from(n).build()
}

fn first_child_draws(mut root: RootRng, k: usize) -> Vec<u64> {
    let mut child = root.derive_child();
    (0..k).map(|_| child.next_u64()).collect()
}

#[test]
fn seed_42_first_child_first_u32_is_recorded() {
    let mut root = root_from_number(42);
    let mut c1 = root.derive_child();
    assert_eq!(c1.next_u32(), 3978186902);
    assert_eq!(c1.next_u64(), 8278760497472056242);

    let mut again = root_from_number(42);
    let mut c1_again = again.derive_child();
    assert_eq!(c1_again.next_u32(), 3978186902);
}

#[test]
fn seed_42_second_child_first_u64_is_recorded() {
    let mut root = root_from_number(42);
    let _c1 = root.derive_child();
    let mut c2 = root.derive_child();
    assert_eq!(c2.next_u64(), 12899662424281051084);
}

#[test]
fn integer_seed_runs_agree_on_every_operation() {
    let run = || {
        let mut root = root_from_number(7);
        let mut out = Vec::new();
        for round in 0..5u64 {
            let mut child = root.derive_child();
            for _ in 0..round + 1 {
                out.push(child.next_u64());
                out.push(child.next_u32() as u64);
            }
        }
        out
    };
    assert_eq!(run(), run());
}

#[test]
fn different_integer_seeds_give_different_streams() {
    assert_ne!(
        first_child_draws(root_from_number(1), 4),
        first_child_draws(root_from_number(2), 4)
    );
}

#[test]
fn text_seed_runs_agree() {
    let a = first_child_draws(RngPlugin::from("hello world").build(), 8);
    let b = first_child_draws(RngPlugin::from(String::from("hello world")).build(), 8);
    let c = first_child_draws(RngPlugin::from_text("hello world").build(), 8);
    assert_eq!(a, b);
    assert_eq!(a, c);
}

#[test]
fn different_text_seeds_give_different_streams() {
    let a = first_child_draws(RngPlugin::from("hello world").build(), 4);
    let b = first_child_draws(RngPlugin::from("hello worle").build(), 4);
    assert_ne!(a, b);
}

#[test]
fn empty_text_is_a_seed_of_its_own() {
    let a = first_child_draws(RngPlugin::from("").build(), 4);
    let b = first_child_draws(RngPlugin::from("").build(), 4);
    assert_eq!(a, b);
    let c = first_child_draws(RngPlugin::from(" ").build(), 4);
    assert_ne!(a, c);
}

#[test]
fn text_and_number_plugins_hold_their_seed() {
    assert_eq!(RngPlugin::from(5u64).seed, Some(Seed::Number(5)));
    assert_eq!(RngPlugin::from("x").seed, Some(Seed::String(String::from("x"))));
    assert_eq!(RngPlugin::default().seed, None);
}

#[test]
fn two_children_of_one_parent_differ() {
    let mut root = root_from_number(3);
    let mut a = root.derive_child();
    let mut b = root.derive_child();
    assert_ne!(a.next_u64(), b.next_u64());
}

#[test]
fn derivation_advances_the_parent() {
    let mut root = root_from_number(11);
    let untouched = root.clone();
    let _first = root.derive_child();
    assert_ne!(root, untouched);
    let after = first_child_draws(root, 4);
    let without = first_child_draws(untouched, 4);
    assert_ne!(after, without);
}

#[test]
fn draws_of_one_handle_leave_another_alone() {
    let mut root = root_from_number(99);
    let mut a = root.derive_child();
    let mut b = root.derive_child();
    let mut a_alone = a.clone();
    let mut b_alone = b.clone();
    let alone_a: Vec<u64> = (0..6).map(|_| a_alone.next_u64()).collect();
    let alone_b: Vec<u64> = (0..6).map(|_| b_alone.next_u64()).collect();

    let schedule = [true, false, false, true, true, false, true, false, false, true, true, false];
    let mut seen_a = Vec::new();
    let mut seen_b = Vec::new();
    for &from_a in &schedule {
        if from_a {
            seen_a.push(a.next_u64());
        } else {
            seen_b.push(b.next_u64());
        }
    }
    assert_eq!(seen_a, alone_a);
    assert_eq!(seen_b, alone_b);
}

#[test]
fn next_u32_is_the_upper_half_of_a_u64_draw() {
    let mut root = root_from_number(5);
    let mut a = root.derive_child();
    let mut b = a.clone();
    let wide = b.next_u64();
    assert_eq!(a.next_u32(), (wide >> 32) as u32);
    assert_eq!(a, b);
}

#[test]
fn consecutive_draws_differ() {
    let mut root = root_from_number(0);
    let mut a = root.derive_child();
    let x = a.next_u64();
    let y = a.next_u64();
    assert_ne!(x, y);
}

#[test]
fn unseeded_runs_differ() {
    let mut first = RngPlugin::default().build();
    let mut second = RngPlugin::default().build();
    assert_ne!(first.derive_child().next_u64(), second.derive_child().next_u64());
}

#[test]
fn from_world_derives_from_the_root() {
    let mut world = Some(root_from_number(42));
    let mut c1 = Rng::from_world(&mut world);
    assert_eq!(c1.next_u32(), 3978186902);
    let mut c2 = Rng::from_world(&mut world);
    assert_eq!(c2.next_u64(), 12899662424281051084);
    assert!(world.is_some());
}

#[test]
fn from_world_without_root_uses_entropy() {
    let mut world: Option<RootRng> = None;
    let mut a = Rng::from_world(&mut world);
    let mut b = Rng::from_world(&mut world);
    assert!(world.is_none());
    assert_ne!(a.next_u64(), b.next_u64());
}

#[test]
fn from_seed_matches_build() {
    let a = first_child_draws(RootRng::from_seed(&Some(Seed::Number(42))), 2);
    let b = first_child_draws(root_from_number(42), 2);
    assert_eq!(a, b);
}

#[test]
fn str_and_string_plugins_are_equal() {
    let s = "seed text";
    assert_eq!(RngPlugin::from(s), RngPlugin::from(s.to_owned()));
    assert_eq!(RngPlugin::from(s), RngPlugin { seed: Some(Seed::String(s.to_string())) });
}

#[test]
fn empty_text_plugin_differs_from_default() {
    assert_ne!(RngPlugin::from(""), RngPlugin::default());
    assert_eq!(RngPlugin::from("").seed, Some(Seed::String(String::new())));
}
