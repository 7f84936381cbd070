//! Layout of the text shown in an alert window.

use vstd::prelude::*;
use vstd::string::*;

verus! {

/// `n` copies of `unit`, one after the other.
pub open spec fn repeated(unit: Seq<char>, n: nat) -> Seq<char>
    decreases n,
{
    if n == 0 {
        Seq::empty()
    } else {
        repeated(unit, (n - 1) as nat) + unit
    }
}

/// What closes a piece of the message that stands at depth `level`: a line
/// break, then four spaces for each level.
pub open spec fn piece_end(level: nat) -> Seq<char> {
    seq!['\n'] + repeated(seq![' ', ' ', ' ', ' '], level)
}

/// The alert text of `msg`, read from the left, when the piece being read
/// stands at depth `level`. A colon followed by a space closes the piece and
/// is dropped; the text after it is one level deeper. The end of the message
/// closes the last piece.
pub open spec fn alert_text(msg: Seq<char>, level: nat) -> Seq<char>
    decreases msg.len(),
{
    if msg.len() >= 2 && msg[0] == ':' && msg[1] == ' ' {
        piece_end(level) + alert_text(msg.skip(2), level + 1)
    } else if msg.len() >= 1 {
        seq![msg[0]] + alert_text(msg.skip(1), level)
    } else {
        piece_end(level)
    }
}

/// Appends the end of a piece at depth `level` to `out`.
fn push_piece_end(out: &mut String, level: usize)
    ensures
        final(out)@ == old(out)@ + piece_end(level as nat),
{
    proof {
        reveal_strlit("\n");
        reveal_strlit("    ");
    }
    out.append("\n");
    assert("\n"@ =~= seq!['\n']);
    assert("    "@ =~= seq![' ', ' ', ' ', ' ']);
    let mut k: usize = 0;
    while k < level
        invariant
            k <= level,
            "    "@ == seq![' ', ' ', ' ', ' '],
            out@ == old(out)@ + seq!['\n'] + repeated(seq![' ', ' ', ' ', ' '], k as nat),
        decreases level - k,
    {
        out.append("    ");
        k += 1;
        assert(out@ =~= old(out)@ + seq!['\n'] + repeated(seq![' ', ' ', ' ', ' '], k as nat));
    }
    assert(out@ =~= old(out)@ + piece_end(level as nat));
}

/// Reading `msg` from `start` gives the characters up to `i` and then what
/// reading from `i` gives, as long as no separator begins in between.
proof fn lemma_alert_text_step(msg: Seq<char>, start: int, i: int, level: nat)
    requires
        0 <= start <= i < msg.len(),
        alert_text(msg.skip(start), level) == msg.subrange(start, i) + alert_text(
            msg.skip(i),
            level,
        ),
    ensures
        (i + 1 < msg.len() && msg[i] == ':' && msg[i + 1] == ' ') ==> alert_text(
            msg.skip(start),
            level,
        ) == msg.subrange(start, i) + piece_end(level) + alert_text(msg.skip(i + 2), level + 1),
        !(i + 1 < msg.len() && msg[i] == ':' && msg[i + 1] == ' ') ==> alert_text(
            msg.skip(start),
            level,
        ) == msg.subrange(start, i + 1) + alert_text(msg.skip(i + 1), level),
{
    let rest = msg.skip(i);
    assert(rest[0] == msg[i]);
    if i + 1 < msg.len() {
        assert(rest[1] == msg[i + 1]);
    }
    if i + 1 < msg.len() && msg[i] == ':' && msg[i + 1] == ' ' {
        assert(rest.skip(2) =~= msg.skip(i + 2));
        assert(msg.subrange(start, i) + (piece_end(level) + alert_text(
            msg.skip(i + 2),
            level + 1,
        )) =~= msg.subrange(start, i) + piece_end(level) + alert_text(
            msg.skip(i + 2),
            level + 1,
        ));
    } else {
        assert(rest.skip(1) =~= msg.skip(i + 1));
        assert(msg.subrange(start, i) + (seq![msg[i]] + alert_text(msg.skip(i + 1), level))
            =~= msg.subrange(start, i + 1) + alert_text(msg.skip(i + 1), level));
    }
}

/// Lays a message out for an alert window: each piece between `": "`
/// separators on a line of its own, followed by the indentation of the next
/// line, which grows by four spaces with every piece.
pub fn __format_alert_msg(msg: &str) -> (rv: String)
    ensures
        rv@ == alert_text(msg@, 1),
{
    let n = msg.unicode_len();
    let mut rv = String::new();
    let mut level: usize = 1;
    let mut start: usize = 0;
    let mut i: usize = 0;
    assert(msg@.skip(0) =~= msg@);
    assert(msg@.subrange(0, 0) + alert_text(msg@, 1) =~= alert_text(msg@, 1));
    while i < n
        invariant
            n == msg@.len(),
            start <= i <= n,
            1 <= level <= start / 2 + 1,
            rv@ + alert_text(msg@.skip(start as int), level as nat) == alert_text(msg@, 1),
            alert_text(msg@.skip(start as int), level as nat) == msg@.subrange(
                start as int,
                i as int,
            ) + alert_text(msg@.skip(i as int), level as nat),
        decreases n - i,
    {
        proof {
            lemma_alert_text_step(msg@, start as int, i as int, level as nat);
        }
        if i + 1 < n && msg.get_char(i) == ':' && msg.get_char(i + 1) == ' ' {
            let ghost before = rv@;
            let ghost piece = msg@.subrange(start as int, i as int);
            rv.append(msg.substring_char(start, i));
            push_piece_end(&mut rv, level);
            proof {
                let tail = alert_text(msg@.skip(i + 2), (level + 1) as nat);
                assert(msg@.subrange(i + 2, i + 2) + tail =~= tail);
                assert(rv@ + tail =~= before + (piece + piece_end(level as nat) + tail));
            }
            level += 1;
            i += 2;
            start = i;
        } else {
            i += 1;
        }
    }
    proof {
        assert(msg@.skip(n as int) =~= Seq::<char>::empty());
        assert(alert_text(msg@.skip(n as int), level as nat) == piece_end(level as nat));
    }
    let ghost before = rv@;
    rv.append(msg.substring_char(start, n));
    push_piece_end(&mut rv, level);
    assert(rv@ =~= before + (msg@.subrange(start as int, n as int) + piece_end(level as nat)));
    rv
}

} // verus!
