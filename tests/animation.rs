use scene_renderer::{AnimationClip, Keyframes, Material, Model, Node};

fn clip(timestamps: Vec<u64>) -> AnimationClip<[i32; 3]> {
    let frames = (0..timestamps.len() as i32).map(|k| [k, 0, 0]).collect();
    AnimationClip { name: "move".to_string(), keyframes: Keyframes::Translation(frames), timestamps }
}

#[test]
fn keyframe_index_counts_reached_timestamps() {
    let c = clip(vec![100, 200, 300, 400]);
    assert_eq!(c.keyframe_index(0), 0);
    assert_eq!(c.keyframe_index(99), 0);
    assert_eq!(c.keyframe_index(100), 1);
    assert_eq!(c.keyframe_index(250), 2);
    assert_eq!(c.keyframe_index(300), 3);
    assert_eq!(c.keyframe_index(400), 3);
}

#[test]
fn keyframe_index_is_monotonic_and_bounded() {
    let c = clip(vec![0, 50, 100, 150, 200]);
    let mut last = 0;
    for t in (0..400u64).step_by(7) {
        let index = c.keyframe_index(t);
        assert!(index >= last);
        assert!(index <= 4);
        last = index;
    }
}

#[test]
fn keyframe_index_holds_at_the_last_keyframe() {
    let c = clip(vec![10, 20, 30]);
    assert_eq!(c.keyframe_index(5), 0);
    for t in [30u64, 31, 1_000, u64::MAX] {
        assert_eq!(c.keyframe_index(t), 2);
    }
}

#[test]
fn empty_clip_samples_nothing() {
    let c = clip(Vec::new());
    assert_eq!(c.keyframe_index(10), 0);
    assert_eq!(c.sample(10), None);
}

#[test]
fn sample_returns_the_active_translation() {
    let c = clip(vec![100, 200, 300]);
    assert_eq!(c.sample(150), Some(&[1, 0, 0]));
    assert_eq!(c.sample(10_000), Some(&[2, 0, 0]));
    let other: AnimationClip<[i32; 3]> = AnimationClip {
        name: "spin".to_string(),
        keyframes: Keyframes::Other,
        timestamps: vec![1, 2],
    };
    assert_eq!(other.sample(5), None);
}

#[test]
fn node_follows_its_first_clip() {
    let mut n: Node<u32, u32, [i32; 3], (), ()> = Node {
        parent: 0,
        locals: (),
        model: Model {
            meshes: Vec::new(),
            materials: vec![Material { name: "m".to_string(), diffuse_texture: 0 }],
            animations: vec![clip(vec![0, 1_000_000])],
        },
        instances: vec![()],
    };
    assert_eq!(n.animated_translation(0), Some(&[1, 0, 0]));
    n.model.animations.clear();
    assert_eq!(n.animated_translation(0), None);
}
