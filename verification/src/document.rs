//! The document: an ordered sequence of rows, split from the text of a
//! file on line boundaries.

use vstd::prelude::*;

use crate::row::Row;

verus! {

/// The rows and the pending (unterminated) line after reading the first
/// `n` characters of `text`: a newline closes the pending line, every
/// other character extends it.
pub open spec fn split_state(text: Seq<char>, n: int) -> (Seq<Seq<char>>, Seq<char>)
    decreases n,
{
    if n <= 0 {
        (Seq::empty(), Seq::empty())
    } else {
        let (rows, cur) = split_state(text, n - 1);
        if text[n - 1] == '\n' {
            (rows.push(cur), Seq::empty())
        } else {
            (rows, cur.push(text[n - 1]))
        }
    }
}

/// The lines of a text, divided on `'\n'`: a final newline terminates the
/// last line rather than opening an empty one, and an empty text has no
/// lines at all.
pub open spec fn lines_of(text: Seq<char>) -> Seq<Seq<char>> {
    let (rows, cur) = split_state(text, text.len() as int);
    if cur.len() == 0 {
        rows
    } else {
        rows.push(cur)
    }
}

/// The open document: its rows in file order, and the name of the file it
/// was read from (absent for a new unnamed document).
pub struct Document {
    rows: Vec<Row>,
    file_name: Option<String>,
}

/// The raw text of each row of a row vector, in order.
pub open spec fn rows_view(rows: Seq<Row>) -> Seq<Seq<char>> {
    Seq::new(rows.len(), |i: int| rows[i]@)
}

impl View for Document {
    type V = Seq<Seq<char>>;

    /// A document is abstractly the sequence of its rows' raw text.
    closed spec fn view(&self) -> Seq<Seq<char>> {
        rows_view(self.rows@)
    }
}

impl Default for Document {
    /// A new document: no rows, no file name.
    fn default() -> (d: Document)
        ensures
            d@ == Seq::<Seq<char>>::empty(),
            d.spec_file_name() is None,
    {
        let d = Document { rows: Vec::new(), file_name: None };
        proof {
            assert(d@ =~= Seq::<Seq<char>>::empty());
        }
        d
    }
}

impl Document {
    /// The name of the file the document was read from, as its characters.
    pub closed spec fn spec_file_name(&self) -> Option<Seq<char>> {
        match self.file_name {
            Some(s) => Some(s@),
            None => None,
        }
    }

    /// The name of the file the document was read from, if any.
    pub fn file_name(&self) -> (r: &Option<String>)
        ensures
            match r {
                Some(s) => self.spec_file_name() == Some(s@),
                None => self.spec_file_name() is None,
            },
    {
        &self.file_name
    }

    /// Splits a text into rows on line boundaries. The name of the file the
    /// text came from, if any, is recorded unchanged.
    pub fn from_text(text: &Vec<char>, file_name: Option<String>) -> (d: Document)
        ensures
            d@ == lines_of(text@),
            d.spec_file_name() == match file_name {
                Some(s) => Some(s@),
                None => None::<Seq<char>>,
            },
    {
        let mut rows: Vec<Row> = Vec::new();
        let mut cur: Vec<char> = Vec::new();
        let mut i: usize = 0;
        while i < text.len()
            invariant
                i <= text@.len(),
                rows_view(rows@) == split_state(text@, i as int).0,
                cur@ == split_state(text@, i as int).1,
            decreases text@.len() - i,
        {
            let c = text[i];
            if c == '\n' {
                let ghost prev_rows = rows_view(rows@);
                let ghost prev_cur = cur@;
                let row = Row::from_chars(cur);
                rows.push(row);
                cur = Vec::new();
                proof {
                    assert(rows_view(rows@) =~= prev_rows.push(prev_cur));
                }
            } else {
                cur.push(c);
            }
            i += 1;
        }
        if cur.len() > 0 {
            let ghost prev_rows = rows_view(rows@);
            let ghost prev_cur = cur@;
            let row = Row::from_chars(cur);
            rows.push(row);
            proof {
                assert(rows_view(rows@) =~= prev_rows.push(prev_cur));
            }
        }
        Document { rows, file_name }
    }

    /// The row at `index`, or absent when `index` is at or past the end.
    /// Absence is a normal outcome, not an error.
    pub fn row(&self, index: usize) -> (r: Option<&Row>)
        ensures
            match r {
                Some(row) => index < self@.len() && row@ == self@[index as int],
                None => index >= self@.len(),
            },
    {
        if index < self.rows.len() {
            Some(&self.rows[index])
        } else {
            None
        }
    }

    /// The number of rows.
    pub fn len(&self) -> (n: usize)
        ensures
            n == self@.len(),
    {
        self.rows.len()
    }

    /// True iff the document has no rows.
    pub fn is_empty(&self) -> (b: bool)
        ensures
            b == (self@.len() == 0),
    {
        self.rows.is_empty()
    }
}

} // verus!
