use vstd::prelude::*;
use vstd::string::StrSliceExecFns;

verus! {

/// Relies on std's `String::push`: appends the given character to the end of
/// the string.
#[verifier::external_body]
fn push_char(s: &mut String, c: char)
    ensures
        final(s)@ == old(s)@.push(c),
{
    s.push(c);
}

/// Builds the string holding exactly the given characters, in order.
pub fn chars_to_string(chars: &Vec<char>) -> (s: String)
    ensures
        s@ == chars@,
{
    let mut s = String::new();
    let mut i: usize = 0;
    while i < chars.len()
        invariant
            i <= chars@.len(),
            s@ == chars@.subrange(0, i as int),
        decreases chars@.len() - i,
    {
        push_char(&mut s, chars[i]);
        i = i + 1;
        proof {
            assert(s@ =~= chars@.subrange(0, i as int));
        }
    }
    proof {
        assert(chars@.subrange(0, chars@.len() as int) =~= chars@);
    }
    s
}

/// The characters of a string, in order.
pub fn string_to_chars(s: &str) -> (chars: Vec<char>)
    ensures
        chars@ == s@,
{
    let n = s.unicode_len();
    let mut chars: Vec<char> = Vec::new();
    let mut i: usize = 0;
    while i < n
        invariant
            i <= n,
            n == s@.len(),
            chars@ == s@.subrange(0, i as int),
        decreases n - i,
    {
        chars.push(s.get_char(i));
        i = i + 1;
        proof {
            assert(chars@ =~= s@.subrange(0, i as int));
        }
    }
    proof {
        assert(s@.subrange(0, s@.len() as int) =~= s@);
    }
    chars
}

/// How many spaces the text ends with.
pub open spec fn trailing_space_count(s: Seq<char>) -> nat
    decreases s.len(),
{
    if s.len() == 0 {
        0
    } else if s.last() == ' ' {
        1 + trailing_space_count(s.drop_last())
    } else {
        0
    }
}

/// The position of the nearest space strictly before `p`, or `0` when the
/// prefix holds none.
pub open spec fn prev_space_pos(s: Seq<char>, p: int) -> int
    decreases p,
{
    if p <= 0 {
        0
    } else if s[p - 1] == ' ' {
        p - 1
    } else {
        prev_space_pos(s, p - 1)
    }
}

/// The position of the first space at or after `start`, or the text length
/// when the suffix holds none.
pub open spec fn next_space_pos(s: Seq<char>, start: int) -> int
    decreases s.len() - start,
{
    if start >= s.len() {
        s.len() as int
    } else if s[start] == ' ' {
        start
    } else {
        next_space_pos(s, start + 1)
    }
}

fn find_prev_space(text: &Vec<char>, p: usize) -> (r: usize)
    requires
        p <= text@.len(),
    ensures
        r == prev_space_pos(text@, p as int),
        r <= p,
{
    let mut i: usize = p;
    while i > 0
        invariant
            i <= p <= text@.len(),
            prev_space_pos(text@, p as int) == prev_space_pos(text@, i as int),
        decreases i,
    {
        if text[i - 1] == ' ' {
            return i - 1;
        }
        i = i - 1;
    }
    0
}

fn find_next_space(text: &Vec<char>, start: usize) -> (r: usize)
    requires
        start <= text@.len(),
    ensures
        r == next_space_pos(text@, start as int),
        start <= r <= text@.len(),
    decreases text@.len() - start,
{
    let mut i: usize = start;
    while i < text.len()
        invariant
            start <= i <= text@.len(),
            next_space_pos(text@, start as int) == next_space_pos(text@, i as int),
        decreases text@.len() - i,
    {
        if text[i] == ' ' {
            return i;
        }
        i = i + 1;
    }
    text.len()
}

/// An editable line of text with a caret.
///
/// The caret invariant ([`Input::inv`]) keeps `pos` between `0` and the text
/// length, inclusive. A space typed at position `0` is rejected, since the
/// renderer cannot tell leading whitespace from panel padding.
pub struct Input {
    pub name: String,
    pub text: Vec<char>,
    pub pos: usize,
}

impl Input {
    /// The caret stays inside the text, one-past-the-end allowed.
    pub open spec fn inv(self) -> bool {
        self.pos <= self.text@.len()
    }

    pub fn new() -> (r: Self)
        ensures
            r.name@.len() == 0,
            r.text@.len() == 0,
            r.pos == 0,
            r.inv(),
    {
        Input { name: String::new(), text: Vec::new(), pos: 0 }
    }

    /// Starts from existing content, with the caret at the end.
    pub fn from(text: String) -> (r: Self)
        ensures
            r.name@.len() == 0,
            r.text@ == text@,
            r.pos == text@.len(),
            r.inv(),
    {
        let chars = string_to_chars(text.as_str());
        let pos = chars.len();
        Input { name: String::new(), text: chars, pos }
    }

    /// Builder step that labels the field for display.
    pub fn name(self, name: String) -> (r: Self)
        ensures
            r.name == name,
            r.text == self.text,
            r.pos == self.pos,
    {
        Input { name, text: self.text, pos: self.pos }
    }

    pub fn len(&self) -> (n: usize)
        ensures
            n == self.text@.len(),
    {
        self.text.len()
    }

    /// The last character of the text as a string, or the empty string.
    pub fn last(&self) -> (s: String)
        ensures
            self.text@.len() > 0 ==> s@ == self.text@.subrange(
                self.text@.len() - 1,
                self.text@.len() as int,
            ),
            self.text@.len() == 0 ==> s@.len() == 0,
    {
        if self.text.len() > 0 {
            let mut v: Vec<char> = Vec::new();
            v.push(self.text[self.text.len() - 1]);
            let s = chars_to_string(&v);
            proof {
                assert(v@ =~= self.text@.subrange(self.text@.len() - 1, self.text@.len() as int));
            }
            s
        } else {
            String::new()
        }
    }

    pub fn num_trailing_spaces(&self) -> (n: usize)
        ensures
            n == trailing_space_count(self.text@),
    {
        let total = self.text.len();
        let mut n: usize = 0;
        let mut i: usize = total;
        proof {
            assert(self.text@.subrange(0, total as int) =~= self.text@);
        }
        loop
            invariant
                i <= total,
                total == self.text@.len(),
                n == total - i,
                trailing_space_count(self.text@) == n + trailing_space_count(
                    self.text@.subrange(0, i as int),
                ),
            decreases i,
        {
            if i == 0 {
                proof {
                    assert(self.text@.subrange(0, 0) =~= Seq::<char>::empty());
                }
                return n;
            }
            if self.text[i - 1] != ' ' {
                proof {
                    assert(self.text@.subrange(0, i as int).last() != ' ');
                }
                return n;
            }
            proof {
                let sub = self.text@.subrange(0, i as int);
                assert(sub.last() == ' ');
                assert(sub.drop_last() =~= self.text@.subrange(0, i - 1));
            }
            i = i - 1;
            n = n + 1;
        }
    }

    /// Inserts `c` at the caret and advances it; a space at position `0` is
    /// rejected as a no-op.
    pub fn push(&mut self, c: char)
        requires
            old(self).inv(),
        ensures
            final(self).name == old(self).name,
            final(self).inv(),
            (old(self).pos == 0 && c == ' ') ==> final(self).text == old(self).text
                && final(self).pos == old(self).pos,
            !(old(self).pos == 0 && c == ' ') ==> final(self).text@ == old(self).text@.insert(
                old(self).pos as int,
                c,
            ) && final(self).pos == old(self).pos + 1,
    {
        if self.pos == 0 && c == ' ' {
            return;
        }
        self.text.insert(self.pos, c);
        let new_len = self.text.len();
        proof {
            assert(self.pos < new_len);
        }
        self.pos = self.pos + 1;
    }

    /// Deletes the character before the caret, if any, and moves the caret
    /// back over it.
    pub fn pop(&mut self)
        requires
            old(self).inv(),
        ensures
            final(self).name == old(self).name,
            final(self).inv(),
            old(self).pos == 0 ==> final(self).text == old(self).text && final(self).pos == 0,
            old(self).pos > 0 ==> final(self).text@ == old(self).text@.remove(
                old(self).pos - 1,
            ) && final(self).pos == old(self).pos - 1,
    {
        if self.pos > 0 {
            self.pos = self.pos - 1;
            self.text.remove(self.pos);
        }
    }

    /// Destructive read: returns the text and resets the field.
    pub fn extract(&mut self) -> (s: String)
        ensures
            s@ == old(self).text@,
            final(self).name == old(self).name,
            final(self).text@.len() == 0,
            final(self).pos == 0,
            final(self).inv(),
    {
        let s = chars_to_string(&self.text);
        self.text = Vec::new();
        self.pos = 0;
        s
    }

    /// Empties the field without returning the old content.
    pub fn clear(&mut self)
        ensures
            final(self).name == old(self).name,
            final(self).text@.len() == 0,
            final(self).pos == 0,
            final(self).inv(),
    {
        self.pos = 0;
        self.text.clear();
    }

    pub fn move_left(&mut self)
        ensures
            final(self).name == old(self).name,
            final(self).text == old(self).text,
            final(self).pos == (if old(self).pos > 0 {
                (old(self).pos - 1) as usize
            } else {
                0usize
            }),
    {
        if self.pos > 0 {
            self.pos = self.pos - 1;
        }
    }

    pub fn move_right(&mut self)
        requires
            old(self).inv(),
        ensures
            final(self).name == old(self).name,
            final(self).text == old(self).text,
            final(self).pos == (if old(self).pos < old(self).text@.len() {
                (old(self).pos + 1) as usize
            } else {
                old(self).pos
            }),
            final(self).inv(),
    {
        if self.pos < self.text.len() {
            self.pos = self.pos + 1;
        }
    }

    pub fn move_start(&mut self)
        ensures
            final(self).name == old(self).name,
            final(self).text == old(self).text,
            final(self).pos == 0,
            final(self).inv(),
    {
        self.pos = 0;
    }

    pub fn move_end(&mut self)
        ensures
            final(self).name == old(self).name,
            final(self).text == old(self).text,
            final(self).pos == old(self).text@.len(),
            final(self).inv(),
    {
        self.pos = self.text.len();
    }

    /// Moves the caret to the nearest space left of it, or to the start.
    pub fn move_to_prev_space(&mut self)
        requires
            old(self).inv(),
        ensures
            final(self).name == old(self).name,
            final(self).text == old(self).text,
            final(self).pos == prev_space_pos(old(self).text@, old(self).pos as int),
            final(self).inv(),
    {
        self.pos = find_prev_space(&self.text, self.pos);
    }

    /// Moves the caret to the next space strictly right of it, or to the end.
    pub fn move_to_next_space(&mut self)
        requires
            old(self).inv(),
        ensures
            final(self).name == old(self).name,
            final(self).text == old(self).text,
            final(self).pos == next_space_pos(
                old(self).text@,
                if old(self).pos + 1 <= old(self).text@.len() {
                    old(self).pos + 1
                } else {
                    old(self).text@.len() as int
                },
            ),
            final(self).inv(),
    {
        let start = if self.pos >= self.text.len() {
            self.text.len()
        } else {
            self.pos + 1
        };
        self.pos = find_next_space(&self.text, start);
    }

    /// Deletes from the previous-space position up to the caret, leaving the
    /// caret on that position: the "delete previous word" operation.
    pub fn delete_to_left_space(&mut self)
        requires
            old(self).inv(),
        ensures
            final(self).name == old(self).name,
            final(self).pos == prev_space_pos(old(self).text@, old(self).pos as int),
            final(self).text@ == old(self).text@.subrange(0, final(self).pos as int)
                + old(self).text@.subrange(old(self).pos as int, old(self).text@.len() as int),
            final(self).inv(),
    {
        let p = find_prev_space(&self.text, self.pos);
        let ghost t0 = self.text@;
        let ghost pos0 = self.pos as int;
        let mut k: usize = self.pos - p;
        proof {
            assert(self.text@ =~= t0.subrange(0, p as int) + t0.subrange(pos0 - k, t0.len() as int));
        }
        while k > 0
            invariant
                p == prev_space_pos(t0, pos0),
                0 <= p <= pos0 - k,
                pos0 <= t0.len(),
                self.name == old(self).name,
                self.pos == old(self).pos,
                self.text@ == t0.subrange(0, p as int) + t0.subrange(pos0 - k, t0.len() as int),
            decreases k,
        {
            self.text.remove(p);
            k = k - 1;
            proof {
                assert(self.text@ =~= t0.subrange(0, p as int) + t0.subrange(
                    pos0 - k,
                    t0.len() as int,
                ));
            }
        }
        self.pos = p;
    }
}

} // verus!
