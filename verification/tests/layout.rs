use gptneox::layout::{attention_views, AttentionInput};

fn input() -> AttentionInput {
    // 32 heads of 80 channels, a batch of 5 tokens after 7, layer 3 of a
    // 2048-token context, f32 memories and projection.
    AttentionInput {
        n_embd: 2560,
        n_head: 32,
        n: 5,
        n_past: 7,
        n_ctx: 2048,
        layer: 3,
        row_stride: 3 * 2560 * 4,
        key_size: 4,
        value_size: 4,
        elem_size: 4,
    }
}

#[test]
fn views_of_a_layer() {
    let v = attention_views(&input()).unwrap();
    assert_eq!(v.head_dim, 80);

    assert_eq!(
        (v.query.ne0, v.query.ne1, v.query.ne2),
        (80, 32, 5)
    );
    assert_eq!((v.query.nb1, v.query.nb2), (960, 30720));
    assert_eq!(v.query.offset, 0);
    assert_eq!(v.key.offset, 320);
    assert_eq!(v.value.offset, 640);

    assert_eq!(v.key_store.ne0, 5 * 2560);
    assert_eq!(v.key_store.offset, 4 * 2560 * (3 * 2048 + 7));

    assert_eq!((v.value_store.ne0, v.value_store.ne1), (5, 2560));
    assert_eq!(v.value_store.nb1, 2048 * 4);
    assert_eq!(v.value_store.offset, 3 * 2048 * 4 * 2560 + 7 * 4);

    assert_eq!(v.key_all.ne0, 12 * 2560);
    assert_eq!(v.key_all.offset, 3 * 2048 * 4 * 2560);
    assert_eq!(
        (v.key_all_shape.ne0, v.key_all_shape.ne1, v.key_all_shape.ne2),
        (80, 32, 12)
    );

    assert_eq!(
        (v.value_all.ne0, v.value_all.ne1, v.value_all.ne2),
        (12, 80, 32)
    );
    assert_eq!(v.value_all.nb1, 2048 * 4);
    assert_eq!(v.value_all.nb2, 2048 * 4 * 80);
    assert_eq!(v.value_all.offset, 3 * 2048 * 4 * 2560);

    assert_eq!((v.batch_shape.ne0, v.batch_shape.ne1), (2560, 5));
}

#[test]
fn new_keys_follow_the_past_ones() {
    let i = input();
    let v = attention_views(&i).unwrap();
    assert_eq!(
        v.key_store.offset,
        v.key_all.offset + i.n_past * i.n_embd * i.key_size
    );
    assert_eq!(v.key_all.ne0, i.n_past * i.n_embd + v.key_store.ne0);
    assert!(v.key_store.offset + v.key_store.ne0 * i.key_size
        <= (i.layer + 1) * i.n_ctx * i.n_embd * i.key_size);
}

#[test]
fn values_are_read_back_where_stored() {
    let i = input();
    let v = attention_views(&i).unwrap();
    for t in 0..i.n {
        for ch in [0, 1, 79, 80, 81, 2559] {
            let stored = v.value_store.offset + t * i.value_size + ch * v.value_store.nb1;
            let read = v.value_all.offset
                + (i.n_past + t) * i.value_size
                + (ch % v.head_dim) * v.value_all.nb1
                + (ch / v.head_dim) * v.value_all.nb2;
            assert_eq!(stored, read);
        }
    }
}

#[test]
fn no_heads_gives_none() {
    let i = AttentionInput { n_head: 0, ..input() };
    assert!(attention_views(&i).is_none());
}

#[test]
fn overflow_gives_none() {
    let i = AttentionInput {
        n_ctx: usize::MAX / 2,
        ..input()
    };
    assert!(attention_views(&i).is_none());
    let i = AttentionInput {
        elem_size: usize::MAX,
        ..input()
    };
    assert!(attention_views(&i).is_none());
}

#[test]
fn first_layer_first_batch() {
    let i = AttentionInput {
        n_embd: 8,
        n_head: 2,
        n: 3,
        n_past: 0,
        n_ctx: 16,
        layer: 0,
        row_stride: 96,
        key_size: 2,
        value_size: 2,
        elem_size: 4,
    };
    let v = attention_views(&i).unwrap();
    assert_eq!(v.head_dim, 4);
    assert_eq!(v.key_store.offset, 0);
    assert_eq!(v.value_store.offset, 0);
    assert_eq!(v.key_all.ne0, 24);
    assert_eq!(v.value_all.nb2, 16 * 2 * 4);
    assert_eq!(v.key.offset, 16);
    assert_eq!(v.value.offset, 32);
    assert_eq!(v.query.nb1, 48);
}
