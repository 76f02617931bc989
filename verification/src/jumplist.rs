//! The taskbar's jump list: its tasks, and the texts as the shell takes them.
use vstd::prelude::*;

use crate::text;

verus! {

/// A task of the jump list: what it is called, and the argument that the app is started with.
pub struct Task<S> {
    pub title: S,
    pub argument: S,
}

impl View for Task<&'static str> {
    type V = Task<Seq<char>>;

    open spec fn view(&self) -> Task<Seq<char>> {
        Task { title: self.title@, argument: self.argument@ }
    }
}

/// The models of some tasks.
pub open spec fn tasks_view(v: Seq<Task<&'static str>>) -> Seq<Task<Seq<char>>> {
    Seq::new(v.len(), |i: int| v[i]@)
}

/// The tasks, top to bottom.
pub open spec fn task_list() -> Seq<Task<Seq<char>>> {
    seq![
        Task { title: "Play / Pause"@, argument: "--control=toggle"@ },
        Task { title: "Next"@, argument: "--control=next"@ },
        Task { title: "Previous"@, argument: "--control=previous"@ },
        Task { title: "Like this song"@, argument: "--control=like"@ },
        Task { title: "Start radio from this song"@, argument: "--control=radio"@ },
        Task { title: "Mini player"@, argument: "--control=mini"@ },
        Task { title: "Check for updates"@, argument: "--control=updates"@ },
    ]
}

/// The tasks, top to bottom.
pub fn tasks() -> (r: Vec<Task<&'static str>>)
    ensures
        tasks_view(r@) == task_list(),
{
    let v: Vec<Task<&'static str>> = vec![
        Task { title: "Play / Pause", argument: "--control=toggle" },
        Task { title: "Next", argument: "--control=next" },
        Task { title: "Previous", argument: "--control=previous" },
        Task { title: "Like this song", argument: "--control=like" },
        Task { title: "Start radio from this song", argument: "--control=radio" },
        Task { title: "Mini player", argument: "--control=mini" },
        Task { title: "Check for updates", argument: "--control=updates" },
    ];
    assert(tasks_view(v@) =~= task_list());
    v
}

// ---------------------------------------------------------------------------
// Wide strings
// ---------------------------------------------------------------------------

/// The UTF-16 code units of a character: one below the supplementary planes, else a surrogate
/// pair.
pub open spec fn utf16_units(c: char) -> Seq<u16> {
    let v = c as u32;
    if v < 0x10000 {
        seq![v as u16]
    } else {
        seq![(0xD800 + (v - 0x10000) / 0x400) as u16, (0xDC00 + (v - 0x10000) % 0x400) as u16]
    }
}

/// The UTF-16 code units of a text.
pub open spec fn utf16(s: Seq<char>) -> Seq<u16>
    decreases s.len(),
{
    if s.len() == 0 {
        seq![]
    } else {
        utf16(s.drop_last()) + utf16_units(s.last())
    }
}

/// A text in UTF-16 with a zero at its end, as the shell takes it.
pub fn wide(s: &str) -> (r: Vec<u16>)
    ensures
        r@ == utf16(s@).push(0),
{
    let v: Vec<char> = text::chars_of(s);
    let mut out: Vec<u16> = Vec::new();
    let mut i: usize = 0;
    while i < v.len()
        invariant
            i <= v@.len(),
            v@ == s@,
            out@ == utf16(s@.take(i as int)),
        decreases v@.len() - i,
    {
        let c: u32 = v[i] as u32;
        proof {
            let next = s@.take(i + 1);
            assert(next.drop_last() =~= s@.take(i as int));
            assert(next.last() == s@[i as int]);
        }
        let ghost before = out@;
        if c < 0x10000 {
            out.push(c as u16);
            assert(out@ =~= before + utf16_units(v@[i as int]));
        } else {
            let high: u32 = 0xD800 + (c - 0x10000) / 0x400;
            let low: u32 = 0xDC00 + (c - 0x10000) % 0x400;
            out.push(high as u16);
            out.push(low as u16);
            assert(out@ =~= before + utf16_units(v@[i as int]));
        }
        i = i + 1;
    }
    assert(s@.take(i as int) =~= s@);
    out.push(0);
    out
}

// ---------------------------------------------------------------------------
// Laws
// ---------------------------------------------------------------------------

proof fn lemma_units_not_zero(c: char)
    requires
        c != '\0',
    ensures
        forall|i: int| 0 <= i < utf16_units(c).len() ==> utf16_units(c)[i] != 0,
{
}

/// A wide string ends at its own end: a text without the zero character has no zero among its code
/// units, so the zero after them is the only one.
pub proof fn law_wide_ends_at_end(s: Seq<char>)
    requires
        !s.contains('\0'),
    ensures
        !utf16(s).contains(0),
    decreases s.len(),
{
    if s.len() > 0 {
        let front = s.drop_last();
        assert forall|i: int| 0 <= i < front.len() implies front[i] != '\0' by {
            assert(s.contains(s[i]));
        }
        law_wide_ends_at_end(front);
        assert(s.contains(s.last()));
        let a = utf16(front);
        let b = utf16_units(s.last());
        lemma_units_not_zero(s.last());
        assert forall|i: int| 0 <= i < (a + b).len() implies (a + b)[i] != 0 by {
            if i < a.len() {
                assert(a.contains(a[i]));
            }
        }
    }
}

/// A character can be read off its code units: a single unit is its code point, and a pair is a high
/// and a low surrogate that hold the ten upper and the ten lower bits above the first plane.
pub proof fn law_units_hold_the_character(c: char)
    ensures
        (c as u32) < 0x10000 ==> utf16_units(c).len() == 1 && utf16_units(c)[0] == c as u32,
        (c as u32) >= 0x10000 ==> ({
            let units = utf16_units(c);
            &&& units.len() == 2
            &&& 0xD800 <= units[0] <= 0xDBFF
            &&& 0xDC00 <= units[1] <= 0xDFFF
            &&& 0x10000 + (units[0] - 0xD800) * 0x400 + (units[1] - 0xDC00) == c as u32
        }),
{
}

/// The code units of a text are those of its characters, one after the other.
pub proof fn law_units_in_order(a: Seq<char>, b: Seq<char>, c: char)
    ensures
        utf16(a + b) == utf16(a) + utf16(b),
        utf16(seq![c]) == utf16_units(c),
        utf16(Seq::empty()).len() == 0,
    decreases b.len(),
{
    let one = seq![c];
    assert(one.drop_last() =~= Seq::<char>::empty());
    assert(utf16(one.drop_last()) =~= Seq::<u16>::empty());
    assert(utf16(one) =~= utf16_units(c));
    if b.len() == 0 {
        assert(a + b =~= a);
        assert(utf16(a) + utf16(b) =~= utf16(a));
    } else {
        law_units_in_order(a, b.drop_last(), c);
        assert((a + b).drop_last() =~= a + b.drop_last());
        assert((a + b).last() == b.last());
        assert(utf16(a + b) =~= utf16(a) + utf16(b));
    }
}

/// Models keep what they model: both texts of a task, and the order of tasks.
pub proof fn law_models(all: Seq<Task<&'static str>>)
    ensures
        tasks_view(all).len() == all.len(),
        forall|i: int|
            0 <= i < all.len() ==> (#[trigger] tasks_view(all)[i]).title == all[i].title@
                && tasks_view(all)[i].argument == all[i].argument@,
{
}

} // verus!
