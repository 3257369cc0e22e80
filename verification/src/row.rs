//! A single line of text together with its render form: the width-aware
//! projection used for display, in which each tab advances to the next
//! multiple of a fixed tab-stop width.

use vstd::prelude::*;

verus! {

/// Number of columns in one tab stop: a tab in the raw text advances the
/// render column to the next multiple of this width.
pub const TAB_STOP: usize = 4;

/// A run of `n` spaces.
pub open spec fn spaces(n: nat) -> Seq<char> {
    Seq::new(n, |i: int| ' ')
}

/// What one raw character contributes to the render form when it is laid
/// down at render column `col`: a tab becomes spaces up to the next tab
/// stop, every other character stands for itself.
pub open spec fn char_render(c: char, col: nat) -> Seq<char> {
    if c == '\t' {
        spaces((TAB_STOP as int - col as int % (TAB_STOP as int)) as nat)
    } else {
        seq![c]
    }
}

/// The render form of the first `n` characters of `raw`.
pub open spec fn render_prefix(raw: Seq<char>, n: int) -> Seq<char>
    decreases n,
{
    if n <= 0 {
        Seq::empty()
    } else {
        let prev = render_prefix(raw, n - 1);
        prev + char_render(raw[n - 1], prev.len())
    }
}

/// The render form of a whole raw line: tabs expanded to spaces, every
/// other character unchanged.
pub open spec fn render_of(raw: Seq<char>) -> Seq<char> {
    render_prefix(raw, raw.len() as int)
}

/// The substring of the render form spanning columns `[start, end)`,
/// silently clipped to the available length: a range entirely past the end
/// yields the empty sequence, partial overlap yields the overlapping part.
pub open spec fn render_slice(raw: Seq<char>, start: int, end: int) -> Seq<char> {
    let rc = render_of(raw);
    let e = if end > rc.len() { rc.len() as int } else { end };
    let s = if start > e { e } else { start };
    rc.subrange(s, e)
}

/// One line of the document: the literal text of the line (no trailing
/// newline) plus a cached render form that is kept in sync with it.
pub struct Row {
    raw: Vec<char>,
    render: Vec<char>,
}

impl View for Row {
    type V = Seq<char>;

    /// A row is abstractly its raw text; the render form is derived.
    closed spec fn view(&self) -> Seq<char> {
        self.raw@
    }
}

impl Row {
    /// The cached render form is never stale: it always equals the render
    /// form of the current raw text.
    #[verifier::type_invariant]
    pub closed spec fn cache_in_sync(&self) -> bool {
        self.render@ == render_of(self.raw@)
    }

    /// Builds a row from its raw characters, computing the render cache.
    pub fn from_chars(raw: Vec<char>) -> (r: Row)
        ensures
            r@ == raw@,
    {
        let render = build_render(&raw);
        Row { raw, render }
    }

    /// The number of columns of the render form (render-space length; it
    /// differs from the raw length when the line contains tabs).
    pub fn len(&self) -> (n: usize)
        ensures
            n == render_of(self@).len(),
    {
        proof {
            use_type_invariant(self);
        }
        self.render.len()
    }

    /// True iff the row has no columns at all.
    pub fn is_empty(&self) -> (b: bool)
        ensures
            b == (render_of(self@).len() == 0),
    {
        self.len() == 0
    }

    /// The visible part of the row between render columns `start` and
    /// `end`, clipped to the available length. Total: no input panics, a
    /// range past the end comes back empty.
    pub fn render(&self, start: usize, end: usize) -> (r: Vec<char>)
        ensures
            r@ == render_slice(self@, start as int, end as int),
    {
        proof {
            use_type_invariant(self);
        }
        let e = if end > self.render.len() {
            self.render.len()
        } else {
            end
        };
        let s = if start > e {
            e
        } else {
            start
        };
        let mut r: Vec<char> = Vec::new();
        let mut i: usize = s;
        while i < e
            invariant
                s <= i <= e <= self.render@.len(),
                r@ == self.render@.subrange(s as int, i as int),
            decreases e - i,
        {
            r.push(self.render[i]);
            i += 1;
            proof {
                assert(self.render@.subrange(s as int, i as int) =~= self.render@.subrange(
                    s as int,
                    i - 1,
                ).push(self.render@[i - 1]));
            }
        }
        r
    }
}

/// Computes the render form of `raw`: tabs expand to spaces up to the next
/// tab stop, all other characters are copied through.
fn build_render(raw: &Vec<char>) -> (r: Vec<char>)
    ensures
        r@ == render_of(raw@),
{
    let mut r: Vec<char> = Vec::new();
    let mut i: usize = 0;
    while i < raw.len()
        invariant
            i <= raw@.len(),
            r@ == render_prefix(raw@, i as int),
        decreases raw@.len() - i,
    {
        let c = raw[i];
        if c == '\t' {
            let ghost base = r@;
            let pad = TAB_STOP - (r.len() % TAB_STOP);
            let mut j: usize = 0;
            while j < pad
                invariant
                    j <= pad,
                    r@ == base + spaces(j as nat),
                decreases pad - j,
            {
                r.push(' ');
                j += 1;
                proof {
                    assert(base + spaces(j as nat) =~= (base + spaces((j - 1) as nat)).push(' '));
                }
            }
            proof {
                assert(r@ =~= base + char_render(c, base.len()));
            }
        } else {
            r.push(c);
            proof {
                assert(r@ =~= render_prefix(raw@, i as int) + char_render(c, (r@.len() - 1) as nat));
            }
        }
        i += 1;
    }
    r
}

/// A line without width-expanding characters renders as itself: the render
/// form of a tab-free prefix is that prefix.
pub proof fn lemma_render_prefix_identity(raw: Seq<char>, n: int)
    requires
        0 <= n <= raw.len(),
        forall|i: int| 0 <= i < n ==> raw[i] != '\t',
    ensures
        render_prefix(raw, n) == raw.take(n),
    decreases n,
{
    if n > 0 {
        lemma_render_prefix_identity(raw, n - 1);
        assert(render_prefix(raw, n) =~= raw.take(n));
    } else {
        assert(render_prefix(raw, n) =~= raw.take(n));
    }
}

/// Rendering a line that contains no tab reproduces the line itself.
pub proof fn lemma_render_no_tabs_identity(raw: Seq<char>)
    requires
        forall|i: int| 0 <= i < raw.len() ==> raw[i] != '\t',
    ensures
        render_of(raw) == raw,
{
    lemma_render_prefix_identity(raw, raw.len() as int);
    assert(raw.take(raw.len() as int) =~= raw);
}

/// The render form never contains a tab: every tab was expanded to spaces.
pub proof fn lemma_render_prefix_no_tabs(raw: Seq<char>, n: int)
    ensures
        forall|j: int|
            0 <= j < render_prefix(raw, n).len() ==> render_prefix(raw, n)[j] != '\t',
    decreases n,
{
    if n > 0 {
        lemma_render_prefix_no_tabs(raw, n - 1);
        let prev = render_prefix(raw, n - 1);
        let cr = char_render(raw[n - 1], prev.len());
        assert(forall|j: int| 0 <= j < cr.len() ==> cr[j] != '\t');
        assert(forall|j: int|
            0 <= j < render_prefix(raw, n).len() ==> render_prefix(raw, n)[j] == (prev + cr)[j]);
    }
}

/// Rendering is idempotent: the render form of a render form is itself.
pub proof fn lemma_render_idempotent(raw: Seq<char>)
    ensures
        render_of(render_of(raw)) == render_of(raw),
{
    lemma_render_prefix_no_tabs(raw, raw.len() as int);
    lemma_render_no_tabs_identity(render_of(raw));
}

/// Round trip: the full-width slice of a row that contains no
/// width-expanding character is the row's original text.
pub proof fn lemma_row_round_trip(raw: Seq<char>)
    requires
        forall|i: int| 0 <= i < raw.len() ==> raw[i] != '\t',
    ensures
        render_slice(raw, 0, render_of(raw).len() as int) == raw,
{
    lemma_render_no_tabs_identity(raw);
    lemma_render_slice_full(raw, 0, render_of(raw).len() as int);
}

/// A slice that starts at or past the end of the render form is empty,
/// whatever its right bound.
pub proof fn lemma_render_slice_past_end_empty(raw: Seq<char>, start: int, end: int)
    requires
        start >= render_of(raw).len(),
        start <= end,
    ensures
        render_slice(raw, start, end) == Seq::<char>::empty(),
{
    assert(render_slice(raw, start, end) =~= Seq::<char>::empty());
}

/// The full-width slice of a row is exactly its render form.
pub proof fn lemma_render_slice_full(raw: Seq<char>, start: int, end: int)
    requires
        start == 0,
        end >= render_of(raw).len(),
    ensures
        render_slice(raw, start, end) == render_of(raw),
{
    assert(render_slice(raw, start, end) =~= render_of(raw));
}

} // verus!
