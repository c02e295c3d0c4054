use stack_buddy::progress::{AnimationAction, LoadingAnimation, ANIMATION_STEPS, INITIAL_TEXT};
use stack_buddy::reply::Accent;

fn run(anim: &mut LoadingAnimation) -> Vec<AnimationAction> {
    let mut out = Vec::new();
    while let Some(a) = anim.next() {
        out.push(a);
    }
    out
}

#[test]
fn full_schedule() {
    let mut anim = LoadingAnimation::new();
    assert!(!anim.is_done());
    let actions = run(&mut anim);
    assert!(anim.is_done());
    assert_eq!(actions.len(), ANIMATION_STEPS);
    assert_eq!(
        actions,
        vec![
            AnimationAction::Send { text: "Loading...", accent: Accent::DarkBlue },
            AnimationAction::Edit { text: "Loading." },
            AnimationAction::Wait { seconds: 1 },
            AnimationAction::Edit { text: "Loading.." },
            AnimationAction::Wait { seconds: 1 },
            AnimationAction::Edit { text: "Loading..." },
            AnimationAction::Wait { seconds: 1 },
            AnimationAction::Edit { text: "Loading...." },
            AnimationAction::Wait { seconds: 1 },
        ]
    );
    assert_eq!(INITIAL_TEXT, "Loading...");
}

#[test]
fn exactly_four_edits_each_followed_by_one_second() {
    let actions = run(&mut LoadingAnimation::new());
    let edits: Vec<usize> = (0..actions.len())
        .filter(|&i| matches!(actions[i], AnimationAction::Edit { .. }))
        .collect();
    assert_eq!(edits.len(), 4);
    for i in edits {
        assert_eq!(actions[i + 1], AnimationAction::Wait { seconds: 1 });
    }
    let total: u64 = actions
        .iter()
        .map(|a| match a {
            AnimationAction::Wait { seconds } => *seconds,
            _ => 0,
        })
        .sum();
    assert_eq!(total, 4);
}

#[test]
fn stays_done() {
    let mut anim = LoadingAnimation::new();
    run(&mut anim);
    assert_eq!(anim.next(), None);
    assert_eq!(anim.next(), None);
}

#[test]
fn two_animations_interleaved_are_independent() {
    let mut a = LoadingAnimation::new();
    let mut b = LoadingAnimation::new();
    let mut from_a = Vec::new();
    let mut from_b = Vec::new();
    from_a.push(a.next().unwrap());
    from_a.push(a.next().unwrap());
    loop {
        let x = b.next();
        let y = a.next();
        if let Some(x) = x {
            from_b.push(x);
        }
        if let Some(y) = y {
            from_a.push(y);
        }
        if a.is_done() && b.is_done() {
            break;
        }
    }
    assert_eq!(from_a, run(&mut LoadingAnimation::new()));
    assert_eq!(from_b, run(&mut LoadingAnimation::new()));
}
