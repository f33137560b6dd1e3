//! The one-line preview of a snippet in a listing.

use vstd::prelude::*;
use vstd::string::StringExecFns;

verus! {

/// How a character of a snippet shows in a one-line preview: a line break as
/// the two characters `\n`, a tab as a space.
pub open spec fn escape_char(c: char) -> Seq<char> {
    if c == '\n' {
        seq!['\\', 'n']
    } else if c == '\t' {
        seq![' ']
    } else {
        seq![c]
    }
}

/// A snippet's text with every character escaped for one line.
pub open spec fn escaped(text: Seq<char>) -> Seq<char>
    decreases text.len(),
{
    if text.len() == 0 {
        Seq::empty()
    } else {
        escaped(text.drop_last()) + escape_char(text.last())
    }
}

/// Room for a preview on a terminal line of `width` characters, after the
/// six characters of the zero-padded id and its space.
pub open spec fn preview_room(width: usize) -> nat {
    if width >= 6 {
        (width - 6) as nat
    } else {
        0
    }
}

/// The preview: the escaped text, cut to the room on the line.
pub open spec fn preview_of(text: Seq<char>, width: usize) -> Seq<char> {
    if escaped(text).len() <= preview_room(width) {
        escaped(text)
    } else {
        escaped(text).take(preview_room(width) as int)
    }
}

proof fn escaped_step(text: Seq<char>, i: int)
    requires
        0 <= i < text.len(),
    ensures
        escaped(text.take(i + 1)) == escaped(text.take(i)) + escape_char(text[i]),
{
    assert(text.take(i + 1).drop_last() =~= text.take(i));
}

proof fn escaped_prefix(text: Seq<char>, i: int, j: int)
    requires
        0 <= i <= j <= text.len(),
    ensures
        escaped(text.take(i)).len() <= escaped(text.take(j)).len(),
        escaped(text.take(j)).take(escaped(text.take(i)).len() as int) =~= escaped(text.take(i)),
    decreases j - i,
{
    if i < j {
        escaped_prefix(text, i, j - 1);
        escaped_step(text, j - 1);
    }
}

/// The preview of `content` for a listing line on a terminal `width`
/// characters wide: line breaks shown as `\n`, tabs as spaces, cut to the
/// room left after the id.
pub fn list_snippet(content: &str, width: usize) -> (preview: String)
    ensures
        preview@ == preview_of(content@, width),
{
    let room: usize = if width >= 6 {
        width - 6
    } else {
        0
    };
    let n = content.unicode_len();
    let mut preview = String::new();
    let mut written: usize = 0;
    let mut i: usize = 0;
    proof {
        assert(content@.take(0) =~= Seq::<char>::empty());
    }
    while i < n && written < room
        invariant
            n == content@.len(),
            room == preview_room(width),
            i <= n,
            written <= room,
            written == preview@.len(),
            preview@ == escaped(content@.take(i as int)),
        decreases n - i,
    {
        let c = content.get_char(i);
        proof {
            escaped_step(content@, i as int);
        }
        if c == '\n' {
            if written + 2 <= room {
                preview.append("\\n");
                proof {
                    reveal_strlit("\\n");
                }
                written = written + 2;
            } else {
                preview.append("\\");
                proof {
                    reveal_strlit("\\");
                    escaped_prefix(content@, i as int + 1, n as int);
                    assert(content@.take(n as int) =~= content@);
                    assert(preview@ =~= escaped(content@).take(room as int));
                }
                return preview;
            }
        } else if c == '\t' {
            preview.append(" ");
            proof {
                reveal_strlit(" ");
            }
            written = written + 1;
        } else {
            preview.append(content.substring_char(i, i + 1));
            written = written + 1;
        }
        i = i + 1;
    }
    proof {
        escaped_prefix(content@, i as int, n as int);
        assert(content@.take(n as int) =~= content@);
    }
    preview
}

} // verus!
