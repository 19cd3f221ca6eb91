use vstd::prelude::*;

verus! {

/// What is put behind each line break of a nested block: one level of
/// indentation.
pub open spec fn line_indent() -> Seq<char> {
    seq![' ', ' ']
}

/// `text` moved one level of indentation inwards: every line break in it is
/// followed by two more spaces. The first line stays as it is, for it goes
/// behind the key that the block belongs to.
pub open spec fn nested(text: Seq<char>) -> Seq<char>
    decreases text.len(),
{
    if text.len() == 0 {
        text
    } else if text.last() == '\n' {
        nested(text.drop_last()).push('\n') + line_indent()
    } else {
        nested(text.drop_last()).push(text.last())
    }
}

/// `String::push`: one more character at the end.
#[verifier::external_body]
fn push_char(text: &mut String, c: char)
    ensures
        final(text)@ == old(text)@.push(c),
{
    text.push(c)
}

/// Moves a block of text one level of indentation inwards.
pub fn indent_nested(text: &str) -> (moved: String)
    ensures
        moved@ == nested(text@),
{
    let mut moved = String::new();
    let ghost whole = text@;
    for c in it: text.chars()
        invariant
            it.seq() == whole,
            moved@ == nested(whole.take(it.index() as int)),
    {
        proof {
            let i = it.index() as int;
            assert(whole.take(i + 1).drop_last() == whole.take(i));
            assert(whole.take(i + 1).last() == c);
        }
        push_char(&mut moved, c);
        if c == '\n' {
            push_char(&mut moved, ' ');
            push_char(&mut moved, ' ');
            assert(moved@ == nested(whole.take(it.index() as int)).push('\n') + line_indent());
        }
    }
    proof {
        assert(whole.take(whole.len() as int) == whole);
    }
    moved
}

} // verus!
