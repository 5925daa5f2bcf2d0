//! How a post-quantum signature covers a context.
use vstd::prelude::*;

verus! {

/// What is signed for `data` in a context of at most 255 bytes: a zero byte, the
/// context's length, the context, and the data.
pub open spec fn in_context(ctx: Seq<u8>, data: Seq<u8>) -> Seq<u8> {
    seq![0u8, ctx.len() as u8] + ctx + data
}

/// No two pairs of a context and data are signed as the same message.
pub proof fn contexts_are_told_apart(
    ctx: Seq<u8>,
    data: Seq<u8>,
    other_ctx: Seq<u8>,
    other_data: Seq<u8>,
)
    requires
        ctx.len() <= 255,
        other_ctx.len() <= 255,
    ensures
        in_context(ctx, data) == in_context(other_ctx, other_data) <==> ctx == other_ctx && data
            == other_data,
{
    let message = in_context(ctx, data);
    let other = in_context(other_ctx, other_data);
    if message == other {
        assert(message[1] == ctx.len() as u8 && other[1] == other_ctx.len() as u8);
        let n = ctx.len() as int;
        assert(message.subrange(2, 2 + n) =~= ctx);
        assert(other.subrange(2, 2 + n) =~= other_ctx);
        assert(message.subrange(2 + n, message.len() as int) =~= data);
        assert(other.subrange(2 + n, other.len() as int) =~= other_data);
    }
}

} // verus!
