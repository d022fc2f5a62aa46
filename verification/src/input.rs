use vstd::prelude::*;

verus! {

/// The symbol a backspace key resolves to.
pub const KEYSYM_BACKSPACE: u32 = 0xff08;

/// The symbol the return key resolves to; it submits the buffer.
pub const KEYSYM_RETURN: u32 = 0xff0d;

/// What one committed key does to the authentication input buffer, decided
/// from the resolved symbol alone: backspace pops the last character, the
/// return key submits the accumulated buffer, anything else appends the
/// symbol's printable text (which may be empty for symbols with none).
pub open spec fn edited_buffer(buffer: Seq<char>, sym: u32, text: Seq<char>) -> Seq<char> {
    if sym == KEYSYM_BACKSPACE {
        if buffer.len() == 0 {
            buffer
        } else {
            buffer.subrange(0, buffer.len() - 1)
        }
    } else if sym == KEYSYM_RETURN {
        buffer
    } else {
        buffer + text
    }
}

/// Apply one committed key symbol to the input buffer; `text` is the
/// symbol's printable text as the keymap library reports it, and is
/// appended only when the symbol is neither backspace nor return. Returns
/// true exactly when the symbol asks for submission: the caller must then
/// hand the buffer's content to the authentication collaborator. Whether
/// the buffer is cleared after a failed attempt is the caller's policy,
/// not decided here.
pub fn apply_key(buffer: &mut Vec<char>, sym: u32, text: &Vec<char>) -> (submit: bool)
    ensures
        submit == (sym == KEYSYM_RETURN),
        final(buffer)@ == edited_buffer(old(buffer)@, sym, text@),
{
    if sym == KEYSYM_BACKSPACE {
        let _ = buffer.pop();
        false
    } else if sym == KEYSYM_RETURN {
        true
    } else {
        let n = text.len();
        let mut i: usize = 0;
        while i < n
            invariant
                n == text@.len(),
                0 <= i <= n,
                buffer@ =~= old(buffer)@ + text@.subrange(0, i as int),
            decreases n - i,
        {
            buffer.push(text[i]);
            i += 1;
        }
        proof {
            assert(buffer@ =~= old(buffer)@ + text@);
        }
        false
    }
}

} // verus!
