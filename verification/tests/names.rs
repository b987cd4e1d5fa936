use gptneox::names::{global_tensor_names, layer_tensor_names, push_decimal};
use std::collections::HashSet;

#[test]
fn decimal_digits() {
    for n in [0usize, 7, 10, 99, 100, 12345, usize::MAX] {
        let mut s = String::from("x");
        push_decimal(&mut s, n);
        assert_eq!(s, format!("x{n}"));
    }
}

#[test]
fn names_of_layer_zero() {
    let names = layer_tensor_names(0);
    assert_eq!(names.ln_1_g, "gpt_neox.layers.0.input_layernorm.weight");
    assert_eq!(names.ln_1_b, "gpt_neox.layers.0.input_layernorm.bias");
    assert_eq!(
        names.c_attn_attn_w,
        "gpt_neox.layers.0.attention.query_key_value.weight"
    );
    assert_eq!(
        names.c_attn_attn_b,
        "gpt_neox.layers.0.attention.query_key_value.bias"
    );
    assert_eq!(names.c_attn_proj_w, "gpt_neox.layers.0.attention.dense.weight");
    assert_eq!(names.c_attn_proj_b, "gpt_neox.layers.0.attention.dense.bias");
    assert_eq!(
        names.ln_2_g,
        "gpt_neox.layers.0.post_attention_layernorm.weight"
    );
    assert_eq!(names.ln_2_b, "gpt_neox.layers.0.post_attention_layernorm.bias");
    assert_eq!(names.c_mlp_fc_w, "gpt_neox.layers.0.mlp.dense_h_to_4h.weight");
    assert_eq!(names.c_mlp_fc_b, "gpt_neox.layers.0.mlp.dense_h_to_4h.bias");
    assert_eq!(names.c_mlp_proj_w, "gpt_neox.layers.0.mlp.dense_4h_to_h.weight");
    assert_eq!(names.c_mlp_proj_b, "gpt_neox.layers.0.mlp.dense_4h_to_h.bias");
}

#[test]
fn names_of_a_later_layer() {
    let names = layer_tensor_names(31);
    assert_eq!(names.ln_1_g, "gpt_neox.layers.31.input_layernorm.weight");
    assert_eq!(names.c_mlp_proj_b, "gpt_neox.layers.31.mlp.dense_4h_to_h.bias");
}

#[test]
fn global_names() {
    let names = global_tensor_names();
    assert_eq!(names.wte, "gpt_neox.embed_in.weight");
    assert_eq!(names.ln_f_g, "gpt_neox.final_layer_norm.weight");
    assert_eq!(names.ln_f_b, "gpt_neox.final_layer_norm.bias");
    assert_eq!(names.lmh_g, "embed_out.weight");
}

#[test]
fn all_names_of_a_model_are_distinct() {
    let mut seen = HashSet::new();
    let g = global_tensor_names();
    for name in [g.wte, g.ln_f_g, g.ln_f_b, g.lmh_g] {
        assert!(seen.insert(name));
    }
    for layer in 0..120 {
        let n = layer_tensor_names(layer);
        for name in [
            n.ln_1_g,
            n.ln_1_b,
            n.c_attn_attn_w,
            n.c_attn_attn_b,
            n.c_attn_proj_w,
            n.c_attn_proj_b,
            n.ln_2_g,
            n.ln_2_b,
            n.c_mlp_fc_w,
            n.c_mlp_fc_b,
            n.c_mlp_proj_w,
            n.c_mlp_proj_b,
        ] {
            assert!(seen.insert(name));
        }
    }
    assert_eq!(seen.len(), 4 + 12 * 120);
}
