//! The geometry of the views that one GPT-NeoX attention layer takes: over
//! the fused query/key/value projection of the current batch, and over the
//! layer's slots in the key and value memories of a session.
//!
//! Both memories are flat buffers holding `n_ctx` token positions of
//! `n_embd` channels for each layer, one layer after the other. Keys are
//! stored token by token; values are stored transposed, channel by channel,
//! so that a channel's row holds the `n_ctx` positions.
use vstd::prelude::*;

verus! {

/// The sizes that the attention views of one layer are computed from.
#[derive(Debug, Clone, Copy, PartialEq, Eq, Structural)]
pub struct AttentionInput {
    /// Width of the embedding.
    pub n_embd: usize,
    /// Number of attention heads.
    pub n_head: usize,
    /// Number of tokens in the batch being evaluated.
    pub n: usize,
    /// Number of tokens already held in memory.
    pub n_past: usize,
    /// Number of token positions that the memories hold per layer.
    pub n_ctx: usize,
    /// Index of the layer.
    pub layer: usize,
    /// Byte stride between the tokens of the fused query/key/value projection.
    pub row_stride: usize,
    /// Size in bytes of an element of the key memory.
    pub key_size: usize,
    /// Size in bytes of an element of the value memory.
    pub value_size: usize,
    /// Size in bytes of an element of the projection.
    pub elem_size: usize,
}

/// A one-dimensional view: `ne0` elements starting `offset` bytes in.
#[derive(Debug, Clone, Copy, PartialEq, Eq, Structural)]
pub struct View1 {
    /// Number of elements.
    pub ne0: usize,
    /// Offset in bytes.
    pub offset: usize,
}

/// A two-dimensional view: `ne0` by `ne1` elements, rows `nb1` bytes apart.
#[derive(Debug, Clone, Copy, PartialEq, Eq, Structural)]
pub struct View2 {
    /// Elements per row.
    pub ne0: usize,
    /// Number of rows.
    pub ne1: usize,
    /// Bytes between rows.
    pub nb1: usize,
    /// Offset in bytes.
    pub offset: usize,
}

/// A three-dimensional view: `ne0` by `ne1` by `ne2` elements, with strides
/// `nb1` and `nb2` in bytes along the second and third dimension.
#[derive(Debug, Clone, Copy, PartialEq, Eq, Structural)]
pub struct View3 {
    /// Extent of the first dimension.
    pub ne0: usize,
    /// Extent of the second dimension.
    pub ne1: usize,
    /// Extent of the third dimension.
    pub ne2: usize,
    /// Bytes between steps of the second dimension.
    pub nb1: usize,
    /// Bytes between steps of the third dimension.
    pub nb2: usize,
    /// Offset in bytes.
    pub offset: usize,
}

/// A three-dimensional shape.
#[derive(Debug, Clone, Copy, PartialEq, Eq, Structural)]
pub struct Shape3 {
    /// Extent of the first dimension.
    pub ne0: usize,
    /// Extent of the second dimension.
    pub ne1: usize,
    /// Extent of the third dimension.
    pub ne2: usize,
}

/// A two-dimensional shape.
#[derive(Debug, Clone, Copy, PartialEq, Eq, Structural)]
pub struct Shape2 {
    /// Extent of the first dimension.
    pub ne0: usize,
    /// Extent of the second dimension.
    pub ne1: usize,
}

/// All views and shapes that one attention layer uses.
#[derive(Debug, Clone, Copy, PartialEq, Eq, Structural)]
pub struct AttentionViews {
    /// Channels per head.
    pub head_dim: usize,
    /// The queries within the fused projection.
    pub query: View3,
    /// The keys within the fused projection.
    pub key: View3,
    /// The values within the fused projection.
    pub value: View3,
    /// Where the keys of the batch are stored in the key memory.
    pub key_store: View1,
    /// Where the values of the batch are stored in the value memory.
    pub value_store: View2,
    /// The keys of all tokens so far, in the key memory.
    pub key_all: View1,
    /// The shape that `key_all` is read in: channels, heads, tokens.
    pub key_all_shape: Shape3,
    /// The values of all tokens so far, in the value memory: tokens,
    /// channels of a head, heads.
    pub value_all: View3,
    /// The shape of the values of the batch before they are transposed
    /// for storing, and of the merged attention output: channels, tokens.
    pub batch_shape: Shape2,
}

/// Whether every product and sum that the views are computed from fits in a
/// `usize`, and there is at least one head.
pub open spec fn attention_views_computable(i: AttentionInput) -> bool {
    let slot_start = i.layer * i.n_ctx;
    let value_row = i.n_ctx * i.value_size;
    &&& i.n_head > 0
    &&& i.elem_size * i.n_embd <= usize::MAX
    &&& 2 * i.elem_size <= usize::MAX
    &&& 2 * i.elem_size * i.n_embd <= usize::MAX
    &&& i.n * i.n_embd <= usize::MAX
    &&& i.key_size * i.n_embd <= usize::MAX
    &&& slot_start <= usize::MAX
    &&& slot_start + i.n_past <= usize::MAX
    &&& (i.key_size * i.n_embd) * (slot_start + i.n_past) <= usize::MAX
    &&& value_row <= usize::MAX
    &&& slot_start * i.value_size <= usize::MAX
    &&& slot_start * i.value_size * i.n_embd <= usize::MAX
    &&& i.n_past * i.value_size <= usize::MAX
    &&& slot_start * i.value_size * i.n_embd + i.n_past * i.value_size <= usize::MAX
    &&& i.n_past + i.n <= usize::MAX
    &&& (i.n_past + i.n) * i.n_embd <= usize::MAX
    &&& slot_start * i.key_size <= usize::MAX
    &&& slot_start * i.key_size * i.n_embd <= usize::MAX
    &&& value_row * i.n_embd <= usize::MAX
}

/// The views of one attention layer.
pub open spec fn attention_views_spec(i: AttentionInput) -> AttentionViews {
    let head_dim = i.n_embd / i.n_head;
    let slot_start = i.layer * i.n_ctx;
    let value_row = i.n_ctx * i.value_size;
    let per_token = |offset: int|
        View3 {
            ne0: head_dim as usize,
            ne1: i.n_head,
            ne2: i.n,
            nb1: (i.row_stride / i.n_head) as usize,
            nb2: i.row_stride,
            offset: offset as usize,
        };
    AttentionViews {
        head_dim: head_dim as usize,
        query: per_token(0),
        key: per_token((i.elem_size * i.n_embd) / (i.n_head as int)),
        value: per_token((2 * i.elem_size * i.n_embd) / (i.n_head as int)),
        key_store: View1 {
            ne0: (i.n * i.n_embd) as usize,
            offset: ((i.key_size * i.n_embd) * (slot_start + i.n_past)) as usize,
        },
        value_store: View2 {
            ne0: i.n,
            ne1: i.n_embd,
            nb1: value_row as usize,
            offset: (slot_start * i.value_size * i.n_embd + i.n_past * i.value_size) as usize,
        },
        key_all: View1 {
            ne0: ((i.n_past + i.n) * i.n_embd) as usize,
            offset: (slot_start * i.key_size * i.n_embd) as usize,
        },
        key_all_shape: Shape3 { ne0: head_dim as usize, ne1: i.n_head, ne2: (i.n_past + i.n) as usize },
        value_all: View3 {
            ne0: (i.n_past + i.n) as usize,
            ne1: head_dim as usize,
            ne2: i.n_head,
            nb1: value_row as usize,
            nb2: ((value_row * i.n_embd) / (i.n_head as int)) as usize,
            offset: (slot_start * i.value_size * i.n_embd) as usize,
        },
        batch_shape: Shape2 { ne0: i.n_embd, ne1: i.n },
    }
}

/// The view over the fused projection of the part that starts `offset`
/// bytes into each token.
fn per_token_view(i: &AttentionInput, head_dim: usize, offset: usize) -> (v: View3)
    requires
        i.n_head > 0,
    ensures
        v == (View3 {
            ne0: head_dim,
            ne1: i.n_head,
            ne2: i.n,
            nb1: (i.row_stride / i.n_head) as usize,
            nb2: i.row_stride,
            offset,
        }),
{
    View3 {
        ne0: head_dim,
        ne1: i.n_head,
        ne2: i.n,
        nb1: i.row_stride / i.n_head,
        nb2: i.row_stride,
        offset,
    }
}

/// Computes the views of one attention layer; `None` where a product or sum
/// that they are computed from overflows a `usize`, or there is no head.
pub fn attention_views(i: &AttentionInput) -> (r: Option<AttentionViews>)
    ensures
        r matches Some(v) ==> v.value.ne0 == v.head_dim && v.value.ne1 == i.n_head && v.value.ne2
            == i.n && v.key.ne0 == v.head_dim && v.key.ne1 == i.n_head && v.key.ne2 == i.n
            && v.query.ne0 == v.head_dim && v.query.ne1 == i.n_head && v.query.ne2 == i.n,
        r == if attention_views_computable(*i) {
            Some(attention_views_spec(*i))
        } else {
            None::<AttentionViews>
        },
{
    if i.n_head == 0 {
        return None;
    }
    let head_dim = i.n_embd / i.n_head;
    let key_offset_bytes = i.elem_size.checked_mul(i.n_embd)?;
    let twice_elem = 2usize.checked_mul(i.elem_size)?;
    let value_offset_bytes = twice_elem.checked_mul(i.n_embd)?;
    let batch_elems = i.n.checked_mul(i.n_embd)?;
    let key_token_bytes = i.key_size.checked_mul(i.n_embd)?;
    let slot_start = i.layer.checked_mul(i.n_ctx)?;
    let store_position = slot_start.checked_add(i.n_past)?;
    let key_store_offset = key_token_bytes.checked_mul(store_position)?;
    let value_row = i.n_ctx.checked_mul(i.value_size)?;
    let value_slot_scaled = slot_start.checked_mul(i.value_size)?;
    let value_slot = value_slot_scaled.checked_mul(i.n_embd)?;
    let value_past = i.n_past.checked_mul(i.value_size)?;
    let value_store_offset = value_slot.checked_add(value_past)?;
    let total = i.n_past.checked_add(i.n)?;
    let key_all_elems = total.checked_mul(i.n_embd)?;
    let key_slot_scaled = slot_start.checked_mul(i.key_size)?;
    let key_slot = key_slot_scaled.checked_mul(i.n_embd)?;
    let value_head_bytes = value_row.checked_mul(i.n_embd)?;
    Some(AttentionViews {
        head_dim,
        query: per_token_view(i, head_dim, 0),
        key: per_token_view(i, head_dim, key_offset_bytes / i.n_head),
        value: per_token_view(i, head_dim, value_offset_bytes / i.n_head),
        key_store: View1 { ne0: batch_elems, offset: key_store_offset },
        value_store: View2 {
            ne0: i.n,
            ne1: i.n_embd,
            nb1: value_row,
            offset: value_store_offset,
        },
        key_all: View1 { ne0: key_all_elems, offset: key_slot },
        key_all_shape: Shape3 { ne0: head_dim, ne1: i.n_head, ne2: total },
        value_all: View3 {
            ne0: total,
            ne1: head_dim,
            ne2: i.n_head,
            nb1: value_row,
            nb2: value_head_bytes / i.n_head,
            offset: value_slot,
        },
        batch_shape: Shape2 { ne0: i.n_embd, ne1: i.n },
    })
}

/// The query, key and value views over the fused projection each take
/// `head_dim = n_embd / n_head` channels of each of the `n_head` heads of each
/// of the batch's `n` tokens, stepping `row_stride / n_head` bytes from head
/// to head and `row_stride` bytes from token to token; they start at the
/// head's first, `elem_size * n_embd / n_head`-th and twice that byte.
pub proof fn lemma_fused_projection_views(i: AttentionInput)
    requires
        attention_views_computable(i),
    ensures
        ({
            let v = attention_views_spec(i);
            &&& v.head_dim == i.n_embd / i.n_head
            &&& forall|w: View3|
                w == v.query || w == v.key || w == v.value ==> {
                    &&& w.ne0 == i.n_embd / i.n_head
                    &&& w.ne1 == i.n_head
                    &&& w.ne2 == i.n
                    &&& w.nb1 == i.row_stride / i.n_head
                    &&& w.nb2 == i.row_stride
                }
            &&& v.query.offset == 0
            &&& v.key.offset == (i.elem_size * i.n_embd) / (i.n_head as int)
            &&& v.value.offset == (2 * i.elem_size * i.n_embd) / (i.n_head as int)
            &&& v.query.ne2 == v.batch_shape.ne1
            &&& v.batch_shape.ne0 == i.n_embd
            &&& v.batch_shape.ne1 == i.n
        }),
{
    let e = i.elem_size as int;
    let n = i.n_embd as int;
    let h = i.n_head as int;
    assert(0 <= (e * n) / h <= e * n) by (nonlinear_arith)
        requires
            0 <= e,
            0 <= n,
            h > 0,
    ;
    assert(0 <= (2 * e * n) / h <= 2 * e * n) by (nonlinear_arith)
        requires
            0 <= e,
            0 <= n,
            h > 0,
    ;
}

/// The shapes agree with the views they are read in: the batch holds
/// `n * n_embd` elements, stored as `n` tokens of `n_embd` channels; all keys
/// and values so far cover `n_past + n` tokens of `n_head` heads of
/// `head_dim` channels, which is every element when `n_head` divides
/// `n_embd`.
pub proof fn lemma_shapes_agree(i: AttentionInput)
    requires
        attention_views_computable(i),
        i.n_embd == (i.n_embd / i.n_head) * i.n_head,
    ensures
        ({
            let v = attention_views_spec(i);
            &&& v.batch_shape.ne0 * v.batch_shape.ne1 == v.key_store.ne0
            &&& v.value_store.ne0 == v.batch_shape.ne1
            &&& v.value_store.ne1 == v.batch_shape.ne0
            &&& v.key_all_shape.ne0 == v.head_dim
            &&& v.key_all_shape.ne1 == i.n_head
            &&& v.key_all_shape.ne2 == i.n_past + i.n
            &&& v.key_all_shape.ne0 * v.key_all_shape.ne1 * v.key_all_shape.ne2 == v.key_all.ne0
            &&& v.value_all.ne0 == i.n_past + i.n
            &&& v.value_all.ne1 == v.head_dim
            &&& v.value_all.ne2 == i.n_head
        }),
{
    let e = i.n_embd as int;
    let h = i.n_head as int;
    let hd = e / h;
    let t = (i.n_past + i.n) as int;
    assert(i.n * e == e * i.n) by (nonlinear_arith);
    assert(hd * h * t == t * e) by (nonlinear_arith)
        requires
            e == hd * h,
    ;
    assert(0 <= hd <= e) by (nonlinear_arith)
        requires
            e == hd * h,
            h > 0,
            e >= 0,
    ;
}

/// The keys of the batch are stored right after the keys of the `n_past`
/// tokens before it, and the view of all keys covers exactly those past keys
/// and the batch's: what a layer reads back is what it and the batches before
/// it wrote.
pub proof fn lemma_keys_follow_past(i: AttentionInput)
    requires
        attention_views_computable(i),
    ensures
        attention_views_spec(i).key_store.offset == attention_views_spec(i).key_all.offset
            + i.n_past * i.n_embd * i.key_size,
        attention_views_spec(i).key_all.ne0 == i.n_past * i.n_embd
            + attention_views_spec(i).key_store.ne0,
        attention_views_spec(i).key_all.offset == i.layer * i.n_ctx * i.n_embd * i.key_size,
{
    let ks = i.key_size as int;
    let e = i.n_embd as int;
    let l = i.layer as int;
    let c = i.n_ctx as int;
    let p = i.n_past as int;
    let n = i.n as int;
    assert((ks * e) * (l * c + p) == l * c * ks * e + p * e * ks) by (nonlinear_arith);
    assert((p + n) * e == p * e + n * e) by (nonlinear_arith);
    assert(l * c * ks * e == l * c * e * ks) by (nonlinear_arith);
}

/// While the session holds no more than `n_ctx` tokens, the keys of the
/// batch stay inside the layer's own slot of the key memory, so no layer
/// overwrites the keys of another.
pub proof fn lemma_keys_stay_in_slot(i: AttentionInput)
    requires
        attention_views_computable(i),
        i.n_past + i.n <= i.n_ctx,
    ensures
        i.layer * i.n_ctx * i.n_embd * i.key_size <= attention_views_spec(i).key_store.offset,
        attention_views_spec(i).key_store.offset + attention_views_spec(i).key_store.ne0
            * i.key_size <= (i.layer + 1) * i.n_ctx * i.n_embd * i.key_size,
{
    lemma_keys_follow_past(i);
    let ks = i.key_size as int;
    let e = i.n_embd as int;
    let l = i.layer as int;
    let c = i.n_ctx as int;
    let p = i.n_past as int;
    let n = i.n as int;
    assert(0 <= p * e * ks) by (nonlinear_arith)
        requires
            0 <= p,
            0 <= e,
            0 <= ks,
    ;
    assert(l * c * e * ks + p * e * ks + (n * e) * ks <= (l + 1) * c * e * ks) by (nonlinear_arith)
        requires
            0 <= p,
            0 <= n,
            p + n <= c,
            0 <= e,
            0 <= ks,
            0 <= l,
    ;
}

/// The value of channel `ch` of batch token `t` is stored where the view of
/// all values reads position `n_past + t` of head `ch / head_dim`, channel
/// `ch % head_dim`; and while the session holds no more than `n_ctx`
/// tokens, it lies inside the layer's own slot of the value memory.
pub proof fn lemma_values_read_back(i: AttentionInput, t: int, ch: int)
    requires
        attention_views_computable(i),
        i.n_embd == (i.n_embd / i.n_head) * i.n_head,
        0 <= t < i.n,
        0 <= ch < i.n_embd,
    ensures
        ({
            let v = attention_views_spec(i);
            let hd = v.head_dim as int;
            let stored = v.value_store.offset + t * i.value_size + ch * v.value_store.nb1;
            &&& stored == v.value_all.offset + (i.n_past + t) * i.value_size + (ch % hd)
                * v.value_all.nb1 + (ch / hd) * v.value_all.nb2
            &&& i.n_past + i.n <= i.n_ctx ==> i.layer * i.n_ctx * i.n_embd * i.value_size <= stored
                && stored + i.value_size <= (i.layer + 1) * i.n_ctx * i.n_embd * i.value_size
        }),
{
    let v = attention_views_spec(i);
    let vs = i.value_size as int;
    let e = i.n_embd as int;
    let h = i.n_head as int;
    let hd = e / h;
    let l = i.layer as int;
    let c = i.n_ctx as int;
    let p = i.n_past as int;
    assert(v.head_dim == hd);
    assert(v.value_store.nb1 == c * vs && v.value_all.nb1 == c * vs);
    assert((c * vs * e) / h == c * vs * hd) by (nonlinear_arith)
        requires
            e == hd * h,
            h > 0,
    ;
    assert(v.value_all.nb2 == c * vs * hd);
    assert(v.value_store.offset == l * c * vs * e + p * vs);
    assert(v.value_all.offset == l * c * vs * e);
    assert(hd > 0) by (nonlinear_arith)
        requires
            e == hd * h,
            h > 0,
            ch < e,
            0 <= ch,
    ;
    assert((ch % hd) * (c * vs) + (ch / hd) * (c * vs * hd) == ch * (c * vs)) by (nonlinear_arith)
        requires
            hd > 0,
            0 <= ch,
    ;
    assert(p + i.n <= c ==> l * c * e * vs <= l * c * vs * e + p * vs + t * vs + ch * (c * vs)
        && l * c * vs * e + p * vs + t * vs + ch * (c * vs) + vs <= (l + 1) * c * e * vs) by (nonlinear_arith)
        requires
            0 <= p,
            0 <= t < i.n,
            0 <= ch < e,
            0 <= vs,
            0 <= l,
            0 <= c,
    ;
    assert(l * c * vs * e == l * c * e * vs) by (nonlinear_arith);
    assert((p + t) * vs == p * vs + t * vs) by (nonlinear_arith);
}

/// Within each head's share of a token of the fused projection, the query,
/// key and value parts lie one after the other, `head_dim` elements each,
/// and fill the share when a token holds `3 * n_embd` elements.
pub proof fn lemma_query_key_value_adjacent(i: AttentionInput)
    requires
        attention_views_computable(i),
        i.n_embd == (i.n_embd / i.n_head) * i.n_head,
        i.row_stride == 3 * i.n_embd * i.elem_size,
    ensures
        ({
            let v = attention_views_spec(i);
            &&& v.query.offset == 0
            &&& v.key.offset == v.query.offset + v.head_dim * i.elem_size
            &&& v.value.offset == v.key.offset + v.head_dim * i.elem_size
            &&& v.query.nb1 == v.value.offset + v.head_dim * i.elem_size
            &&& v.key.nb1 == v.query.nb1 && v.value.nb1 == v.query.nb1
        }),
{
    let e = i.n_embd as int;
    let h = i.n_head as int;
    let hd = e / h;
    let f = i.elem_size as int;
    let r = i.row_stride as int;
    assert((f * e) / h == hd * f && (2 * f * e) / h == 2 * hd * f && r / h == 3 * hd * f)
        by (nonlinear_arith)
        requires
            e == hd * h,
            h > 0,
            r == 3 * e * f,
    ;
    assert(0 <= hd * f <= f * e) by (nonlinear_arith)
        requires
            e == hd * h,
            h > 0,
            0 <= f,
            0 <= e,
    ;
    let v = attention_views_spec(i);
    assert(v.head_dim == hd);
    assert(v.key.offset == hd * f);
    assert(v.value.offset == 2 * hd * f);
    assert(v.query.nb1 == 3 * hd * f);
    assert(2 * hd * f == hd * f + hd * f && 3 * hd * f == 2 * hd * f + hd * f) by (nonlinear_arith);
}

} // verus!
