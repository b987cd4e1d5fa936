//! The names under which a GPT-NeoX model file stores its tensors.
use vstd::prelude::*;

verus! {

/// The digit character for `d`.
pub open spec fn digit_char(d: nat) -> char {
    (48 + d) as char
}

/// The decimal digits of `n`, most significant first, without leading zeros.
pub open spec fn decimal(n: nat) -> Seq<char>
    decreases n,
{
    if n < 10 {
        seq![digit_char(n)]
    } else {
        decimal(n / 10) + seq![digit_char(n % 10)]
    }
}

/// The one-character string of the digit `d`.
fn digit_str(d: usize) -> (s: &'static str)
    requires
        d < 10,
    ensures
        s@ == seq![digit_char(d as nat)],
{
    if d == 0 {
        proof { reveal_strlit("0"); }
        "0"
    } else if d == 1 {
        proof { reveal_strlit("1"); }
        "1"
    } else if d == 2 {
        proof { reveal_strlit("2"); }
        "2"
    } else if d == 3 {
        proof { reveal_strlit("3"); }
        "3"
    } else if d == 4 {
        proof { reveal_strlit("4"); }
        "4"
    } else if d == 5 {
        proof { reveal_strlit("5"); }
        "5"
    } else if d == 6 {
        proof { reveal_strlit("6"); }
        "6"
    } else if d == 7 {
        proof { reveal_strlit("7"); }
        "7"
    } else if d == 8 {
        proof { reveal_strlit("8"); }
        "8"
    } else {
        proof { reveal_strlit("9"); }
        "9"
    }
}

/// Appends the decimal digits of `n` to `s`.
pub fn push_decimal(s: &mut String, n: usize)
    ensures
        final(s)@ == old(s)@ + decimal(n as nat),
    decreases n,
{
    if n >= 10 {
        push_decimal(s, n / 10);
    }
    s.append(digit_str(n % 10));
}

/// The part that every per-layer tensor name starts with.
pub open spec fn layers_prefix() -> Seq<char> {
    "gpt_neox.layers."@
}

/// What follows the layer number and a dot in the name of tensor `k` of a
/// layer, for `k` in `0..12`, in the order in which the layer's tensors are
/// loaded.
pub open spec fn layer_suffix(k: int) -> Seq<char> {
    if k == 0 {
        "input_layernorm.weight"@
    } else if k == 1 {
        "input_layernorm.bias"@
    } else if k == 2 {
        "attention.query_key_value.weight"@
    } else if k == 3 {
        "attention.query_key_value.bias"@
    } else if k == 4 {
        "attention.dense.weight"@
    } else if k == 5 {
        "attention.dense.bias"@
    } else if k == 6 {
        "post_attention_layernorm.weight"@
    } else if k == 7 {
        "post_attention_layernorm.bias"@
    } else if k == 8 {
        "mlp.dense_h_to_4h.weight"@
    } else if k == 9 {
        "mlp.dense_h_to_4h.bias"@
    } else if k == 10 {
        "mlp.dense_4h_to_h.weight"@
    } else {
        "mlp.dense_4h_to_h.bias"@
    }
}

/// The name of tensor `k` of layer `layer`.
pub open spec fn layer_tensor_name(layer: nat, k: int) -> Seq<char> {
    layers_prefix() + decimal(layer) + "."@ + layer_suffix(k)
}

/// The name of model-wide tensor `k`, for `k` in `0..4`: the token
/// embedding, the gain and bias of the final normalization, and the language
/// model head.
pub open spec fn global_tensor_name(k: int) -> Seq<char> {
    if k == 0 {
        "gpt_neox.embed_in.weight"@
    } else if k == 1 {
        "gpt_neox.final_layer_norm.weight"@
    } else if k == 2 {
        "gpt_neox.final_layer_norm.bias"@
    } else {
        "embed_out.weight"@
    }
}

/// The names of the tensors of one transformer layer, one field for each.
pub struct LayerTensorNames {
    /// Gain of the normalization before attention.
    pub ln_1_g: String,
    /// Bias of the normalization before attention.
    pub ln_1_b: String,
    /// Weight of the fused query/key/value projection.
    pub c_attn_attn_w: String,
    /// Bias of the fused query/key/value projection.
    pub c_attn_attn_b: String,
    /// Weight of the attention output projection.
    pub c_attn_proj_w: String,
    /// Bias of the attention output projection.
    pub c_attn_proj_b: String,
    /// Gain of the normalization before the feed-forward network.
    pub ln_2_g: String,
    /// Bias of the normalization before the feed-forward network.
    pub ln_2_b: String,
    /// Weight of the feed-forward up projection.
    pub c_mlp_fc_w: String,
    /// Bias of the feed-forward up projection.
    pub c_mlp_fc_b: String,
    /// Weight of the feed-forward down projection.
    pub c_mlp_proj_w: String,
    /// Bias of the feed-forward down projection.
    pub c_mlp_proj_b: String,
}

impl LayerTensorNames {
    /// The names, in the order in which the layer's tensors are loaded.
    pub open spec fn in_order(&self) -> Seq<Seq<char>> {
        seq![
            self.ln_1_g@,
            self.ln_1_b@,
            self.c_attn_attn_w@,
            self.c_attn_attn_b@,
            self.c_attn_proj_w@,
            self.c_attn_proj_b@,
            self.ln_2_g@,
            self.ln_2_b@,
            self.c_mlp_fc_w@,
            self.c_mlp_fc_b@,
            self.c_mlp_proj_w@,
            self.c_mlp_proj_b@,
        ]
    }
}

/// The names of the model-wide tensors.
pub struct GlobalTensorNames {
    /// Token embedding.
    pub wte: String,
    /// Gain of the final normalization.
    pub ln_f_g: String,
    /// Bias of the final normalization.
    pub ln_f_b: String,
    /// Language model head.
    pub lmh_g: String,
}

/// `"gpt_neox.layers.{layer}.{suffix}"`.
fn layer_name(layer: usize, suffix: &str) -> (name: String)
    ensures
        name@ == layers_prefix() + decimal(layer as nat) + "."@ + suffix@,
{
    let mut name = String::new();
    name.append("gpt_neox.layers.");
    push_decimal(&mut name, layer);
    name.append(".");
    name.append(suffix);
    name
}

/// The names of the tensors of layer `layer`.
pub fn layer_tensor_names(layer: usize) -> (names: LayerTensorNames)
    ensures
        forall|k: int| 0 <= k < 12 ==> #[trigger] names.in_order()[k] == layer_tensor_name(layer as nat, k),
{
    LayerTensorNames {
        ln_1_g: layer_name(layer, "input_layernorm.weight"),
        ln_1_b: layer_name(layer, "input_layernorm.bias"),
        c_attn_attn_w: layer_name(layer, "attention.query_key_value.weight"),
        c_attn_attn_b: layer_name(layer, "attention.query_key_value.bias"),
        c_attn_proj_w: layer_name(layer, "attention.dense.weight"),
        c_attn_proj_b: layer_name(layer, "attention.dense.bias"),
        ln_2_g: layer_name(layer, "post_attention_layernorm.weight"),
        ln_2_b: layer_name(layer, "post_attention_layernorm.bias"),
        c_mlp_fc_w: layer_name(layer, "mlp.dense_h_to_4h.weight"),
        c_mlp_fc_b: layer_name(layer, "mlp.dense_h_to_4h.bias"),
        c_mlp_proj_w: layer_name(layer, "mlp.dense_4h_to_h.weight"),
        c_mlp_proj_b: layer_name(layer, "mlp.dense_4h_to_h.bias"),
    }
}

/// The names of the model-wide tensors.
pub fn global_tensor_names() -> (names: GlobalTensorNames)
    ensures
        names.wte@ == global_tensor_name(0),
        names.ln_f_g@ == global_tensor_name(1),
        names.ln_f_b@ == global_tensor_name(2),
        names.lmh_g@ == global_tensor_name(3),
{
    let mut wte = String::new();
    wte.append("gpt_neox.embed_in.weight");
    let mut ln_f_g = String::new();
    ln_f_g.append("gpt_neox.final_layer_norm.weight");
    let mut ln_f_b = String::new();
    ln_f_b.append("gpt_neox.final_layer_norm.bias");
    let mut lmh_g = String::new();
    lmh_g.append("embed_out.weight");
    GlobalTensorNames { wte, ln_f_g, ln_f_b, lmh_g }
}

/// The number that the decimal digits `s` stand for.
pub open spec fn digits_value(s: Seq<char>) -> nat
    decreases s.len(),
{
    if s.len() == 0 {
        0
    } else {
        digits_value(s.drop_last()) * 10 + ((s.last() as int - 48) as nat)
    }
}

/// Whether `c` is one of the characters `0` to `9`.
pub open spec fn is_digit(c: char) -> bool {
    48 <= c as int <= 57
}

/// The decimal digits of `n` are at least one digit, and they stand for `n`.
pub proof fn lemma_decimal(n: nat)
    ensures
        decimal(n).len() >= 1,
        forall|t: int| 0 <= t < decimal(n).len() ==> is_digit(#[trigger] decimal(n)[t]),
        digits_value(decimal(n)) == n,
    decreases n,
{
    if n >= 10 {
        lemma_decimal(n / 10);
        let d = decimal(n);
        assert(d.drop_last() =~= decimal(n / 10));
        assert(d.last() == digit_char(n % 10));
        assert(digits_value(d) == (n / 10) * 10 + (n % 10));
        assert forall|t: int| 0 <= t < d.len() implies is_digit(#[trigger] d[t]) by {
            if t < d.len() - 1 {
                assert(d[t] == decimal(n / 10)[t]);
            }
        }
    } else {
        let d = decimal(n);
        assert(d.drop_last() =~= Seq::<char>::empty());
        assert(digits_value(d.drop_last()) == 0);
    }
}

/// Different numbers have different decimal digits.
pub proof fn lemma_decimal_injective(i: nat, j: nat)
    requires
        decimal(i) == decimal(j),
    ensures
        i == j,
{
    lemma_decimal(i);
    lemma_decimal(j);
}

/// The suffixes of the tensors of a layer are all different.
proof fn lemma_suffixes_distinct(k: int, l: int)
    requires
        0 <= k < 12,
        0 <= l < 12,
        k != l,
    ensures
        layer_suffix(k) != layer_suffix(l),
{
    reveal_strlit("input_layernorm.weight");
    reveal_strlit("input_layernorm.bias");
    reveal_strlit("attention.query_key_value.weight");
    reveal_strlit("attention.query_key_value.bias");
    reveal_strlit("attention.dense.weight");
    reveal_strlit("attention.dense.bias");
    reveal_strlit("post_attention_layernorm.weight");
    reveal_strlit("post_attention_layernorm.bias");
    reveal_strlit("mlp.dense_h_to_4h.weight");
    reveal_strlit("mlp.dense_h_to_4h.bias");
    reveal_strlit("mlp.dense_4h_to_h.weight");
    reveal_strlit("mlp.dense_4h_to_h.bias");
    if layer_suffix(k) == layer_suffix(l) {
        assert(layer_suffix(k).len() == layer_suffix(l).len());
        assert(layer_suffix(k)[0] == layer_suffix(l)[0]);
        assert(layer_suffix(k)[10] == layer_suffix(l)[10]);
    }
}

/// No two tensors of the model's layers share a name: the names differ
/// whenever the layer or the tensor within the layer differs.
pub proof fn lemma_layer_names_distinct(i: nat, k: int, j: nat, l: int)
    requires
        0 <= k < 12,
        0 <= l < 12,
        i != j || k != l,
    ensures
        layer_tensor_name(i, k) != layer_tensor_name(j, l),
{
    reveal_strlit("gpt_neox.layers.");
    reveal_strlit(".");
    let a = layer_tensor_name(i, k);
    let b = layer_tensor_name(j, l);
    let di = decimal(i);
    let dj = decimal(j);
    lemma_decimal(i);
    lemma_decimal(j);
    assert(layers_prefix().len() == 16);
    if a == b {
        assert(a.len() == 16 + di.len() + 1 + layer_suffix(k).len());
        if di.len() < dj.len() {
            assert(a[16 + di.len() as int] == '.');
            assert(b[16 + di.len() as int] == dj[di.len() as int]);
            assert(is_digit(dj[di.len() as int]));
        } else if dj.len() < di.len() {
            assert(b[16 + dj.len() as int] == '.');
            assert(a[16 + dj.len() as int] == di[dj.len() as int]);
            assert(is_digit(di[dj.len() as int]));
        } else {
            let n = di.len() as int;
            assert(di =~= a.subrange(16, 16 + n));
            assert(dj =~= b.subrange(16, 16 + n));
            lemma_decimal_injective(i, j);
            assert(layer_suffix(k) =~= a.subrange(17 + n, a.len() as int));
            assert(layer_suffix(l) =~= b.subrange(17 + n, b.len() as int));
            if k != l {
                lemma_suffixes_distinct(k, l);
            }
        }
    }
}

/// The model-wide tensors have names of their own: no two of them share a
/// name, and none shares a name with a tensor of a layer.
pub proof fn lemma_global_names_distinct(k: int, l: int, layer: nat, m: int)
    requires
        0 <= k < 4,
        0 <= l < 4,
        0 <= m < 12,
    ensures
        k != l ==> global_tensor_name(k) != global_tensor_name(l),
        global_tensor_name(k) != layer_tensor_name(layer, m),
{
    reveal_strlit("gpt_neox.embed_in.weight");
    reveal_strlit("gpt_neox.final_layer_norm.weight");
    reveal_strlit("gpt_neox.final_layer_norm.bias");
    reveal_strlit("embed_out.weight");
    reveal_strlit("gpt_neox.layers.");
    let g = global_tensor_name(k);
    if k != l && g == global_tensor_name(l) {
        assert(g.len() == global_tensor_name(l).len());
        assert(g[9] == global_tensor_name(l)[9]);
    }
    let n = layer_tensor_name(layer, m);
    if g == n {
        assert(n[0] == 'g');
        assert(n[9] == 'l');
        assert(g[0] == n[0]);
        assert(g[9] == n[9]);
    }
}

} // verus!
