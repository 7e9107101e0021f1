use dragon_lair::batching::{batch_by_texture, quad_indices};

#[test]
fn quad_index_lists() {
    assert_eq!(quad_indices(0), Vec::<i32>::new());
    assert_eq!(quad_indices(1), vec![0, 1, 2, 2, 3, 0]);
    assert_eq!(quad_indices(2), vec![0, 1, 2, 2, 3, 0, 4, 5, 6, 6, 7, 4]);
}

#[test]
fn batches_group_by_texture_in_order() {
    let textures = vec![7, 3, 7, 7, 9, 3];
    let mut batches = batch_by_texture(&textures);
    batches.sort_by_key(|b| b.0);
    assert_eq!(batches, vec![(3, vec![1, 5]), (7, vec![0, 2, 3]), (9, vec![4])]);
}

#[test]
fn batches_of_nothing() {
    assert!(batch_by_texture(&vec![]).is_empty());
}

#[test]
fn every_sprite_once() {
    let textures: Vec<u32> = (0..100).map(|i| (i * 7) % 5).collect();
    let batches = batch_by_texture(&textures);
    assert_eq!(batches.len(), 5);
    let mut seen = vec![false; 100];
    for (t, ids) in &batches {
        for w in ids.windows(2) {
            assert!(w[0] < w[1]);
        }
        for &i in ids {
            assert_eq!(textures[i], *t);
            assert!(!seen[i]);
            seen[i] = true;
        }
    }
    assert!(seen.iter().all(|s| *s));
}
