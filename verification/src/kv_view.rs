//! A list of key and value pairs whose values line up in one column.
use vstd::prelude::*;
use crate::table_view::{joined, lemma_joined_step};
use crate::text::{push_char, push_repeat, push_str, repeat_char};
use crate::util::{char_width, cjk_width};

verus! {

/// Columns between the longest key and the values.
pub const KV_SPACING: u16 = 2;

/// The width the key column needs for `key`: its display width, cut to 16
/// bits, plus the spacing.
pub open spec fn key_needed_width(key: Seq<char>) -> int {
    (cjk_width(key) as u16) + KV_SPACING
}

/// Whether `key` fits the key column without overflowing its 16-bit width.
pub open spec fn fits_key_column(key: Seq<char>) -> bool {
    key_needed_width(key) <= u16::MAX
}

/// One printed pair: the key, filler up to the key column width, two spaces, the value.
pub open spec fn kv_row_text(key: Seq<char>, value: Seq<char>, width: int) -> Seq<char> {
    key + repeat_char(' ', (width - key_needed_width(key)) as nat) + seq![' ', ' '] + value
}

/// What a key and value view shows: its pairs and the key column width.
pub struct KvModel {
    pub rows: Seq<(Seq<char>, Seq<char>)>,
    pub key_width: int,
}

/// The view `default` makes: no pairs, a key column of width 0.
pub open spec fn kv_empty() -> KvModel {
    KvModel { rows: Seq::empty(), key_width: 0 }
}

/// The view `add_row` makes: the pair appended, the key column widened to
/// what the key needs.
pub open spec fn kv_add_model(m: KvModel, key: Seq<char>, value: Seq<char>) -> KvModel {
    KvModel {
        rows: m.rows.push((key, value)),
        key_width: if m.key_width < key_needed_width(key) {
            key_needed_width(key)
        } else {
            m.key_width
        },
    }
}

/// The view after `default` and then `add_row` with each of `pairs` in turn.
pub open spec fn kv_after(pairs: Seq<(Seq<char>, Seq<char>)>) -> KvModel
    decreases pairs.len(),
{
    if pairs.len() == 0 {
        kv_empty()
    } else {
        kv_add_model(kv_after(pairs.drop_last()), pairs.last().0, pairs.last().1)
    }
}

/// The widest need of the keys of `pairs`; 0 when there are none.
pub open spec fn widest_key(pairs: Seq<(Seq<char>, Seq<char>)>) -> int
    decreases pairs.len(),
{
    if pairs.len() == 0 {
        0
    } else {
        let w = widest_key(pairs.drop_last());
        let n = key_needed_width(pairs.last().0);
        if w < n {
            n
        } else {
            w
        }
    }
}

/// After `default` and `add_row` with each of `pairs`: the rows are the pairs
/// in call order, and the key column is 0 wide when there are none, else as
/// wide as the widest need of a key (2 more than the widest display width,
/// cut to 16 bits), which is at least each key's need and equal to one of them.
pub proof fn lemma_kv_after_pairs(pairs: Seq<(Seq<char>, Seq<char>)>)
    ensures
        kv_after(pairs).rows == pairs,
        kv_after(pairs).key_width == widest_key(pairs),
        forall|i: int| 0 <= i < pairs.len() ==> widest_key(pairs) >= key_needed_width(#[trigger] pairs[i].0),
        pairs.len() == 0 ==> widest_key(pairs) == 0,
        pairs.len() > 0 ==> exists|i: int|
            0 <= i < pairs.len() && widest_key(pairs) == key_needed_width(#[trigger] pairs[i].0),
    decreases pairs.len(),
{
    if pairs.len() == 0 {
        assert(kv_after(pairs).rows =~= pairs);
    } else {
        let init = pairs.drop_last();
        lemma_kv_after_pairs(init);
        assert(kv_after(pairs).rows =~= pairs);
        assert forall|i: int| 0 <= i < pairs.len() implies widest_key(pairs) >= key_needed_width(
            #[trigger] pairs[i].0,
        ) by {
            if i < pairs.len() - 1 {
                assert(pairs[i] == init[i]);
            }
        }
        if widest_key(pairs) == key_needed_width(pairs.last().0) {
            assert(pairs[pairs.len() - 1] == pairs.last());
        } else {
            let i = choose|i: int| 0 <= i < init.len() && widest_key(init) == key_needed_width(#[trigger] init[i].0);
            assert(pairs[i] == init[i]);
        }
    }
}

/// Whether the key column is wide enough for every key: the values line up.
pub open spec fn keys_fit(m: KvModel) -> bool {
    forall|r: int| 0 <= r < m.rows.len() ==> m.key_width >= key_needed_width(#[trigger] m.rows[r].0)
}

/// The whole view: one line per pair, then an empty line.
pub open spec fn kv_text(m: KvModel) -> Seq<char> {
    joined(
        Seq::new(
            m.rows.len(),
            |r: int| kv_row_text(m.rows[r].0, m.rows[r].1, m.key_width) + seq!['\n'],
        ),
    ) + seq!['\n']
}

/// Pairs of keys and values printed with the values aligned.
pub struct KeyValueView {
    rows: Vec<(String, String)>,
    key_width: u16,
}

impl View for KeyValueView {
    type V = KvModel;

    closed spec fn view(&self) -> KvModel {
        KvModel {
            rows: Seq::new(self.rows@.len(), |r: int| (self.rows@[r].0@, self.rows@[r].1@)),
            key_width: self.key_width as int,
        }
    }
}

impl Default for KeyValueView {
    fn default() -> (r: Self)
        ensures
            r@ == kv_empty(),
            keys_fit(r@),
    {
        let r = KeyValueView { rows: Vec::new(), key_width: 0 };
        assert(r@.rows =~= Seq::<(Seq<char>, Seq<char>)>::empty());
        r
    }
}

/// The text of one pair whose key column is `width` wide.
pub fn print_row(key: &str, value: &str, width: u16) -> (r: String)
    requires
        width >= key_needed_width(key@),
    ensures
        r@ == kv_row_text(key@, value@, width as int),
{
    let count = char_width(key) as u16;
    let right_padding = width - count - KV_SPACING;
    let mut s = String::new();
    push_str(&mut s, key);
    push_repeat(&mut s, ' ', right_padding as usize);
    push_char(&mut s, ' ');
    push_char(&mut s, ' ');
    push_str(&mut s, value);
    assert(s@ =~= kv_row_text(key@, value@, width as int));
    s
}

impl KeyValueView {
    /// The key column is wide enough for every key.
    #[verifier::type_invariant]
    spec fn inv(self) -> bool {
        forall|r: int|
            0 <= r < self.rows@.len() ==> self.key_width >= key_needed_width(
                #[trigger] self.rows@[r].0@,
            )
    }

    /// The invariant seen through the view: the values line up.
    proof fn lemma_inv_fits(self)
        requires
            self.inv(),
        ensures
            keys_fit(self@),
    {
        assert forall|r: int| 0 <= r < self@.rows.len() implies self@.key_width >= key_needed_width(
            #[trigger] self@.rows[r].0,
        ) by {
            assert(self.key_width >= key_needed_width(self.rows@[r].0@));
        }
    }

    /// Appends a pair, widening the key column if the key needs more room.
    pub fn add_row(&mut self, key: &str, value: String)
        requires
            fits_key_column(key@),
        ensures
            final(self)@ == kv_add_model(old(self)@, key@, value@),
            keys_fit(final(self)@),
    {
        proof {
            use_type_invariant(&*self);
        }
        let len = (char_width(key) as u16) + KV_SPACING;
        if self.key_width < len {
            self.key_width = len;
        }
        let mut rows: Vec<(String, String)> = Vec::new();
        std::mem::swap(&mut rows, &mut self.rows);
        rows.push((String::from_str(key), value));
        proof {
            assert forall|r: int| 0 <= r < rows@.len() implies self.key_width >= key_needed_width(
                #[trigger] rows@[r].0@,
            ) by {
                if r < old(self).rows@.len() {
                    assert(rows@[r] == old(self).rows@[r]);
                }
            }
        }
        std::mem::swap(&mut rows, &mut self.rows);
        assert(self@.rows =~= old(self)@.rows.push((key@, value@)));
        proof {
            use_type_invariant(&*self);
            (*self).lemma_inv_fits();
        }
    }

    /// Appends the pair when the key fits a 16-bit column width; returns
    /// whether it did.
    pub fn try_add_row(&mut self, key: &str, value: String) -> (r: bool)
        ensures
            r == fits_key_column(key@),
            !r ==> final(self)@ == old(self)@,
            r ==> final(self)@ == kv_add_model(old(self)@, key@, value@),
            keys_fit(final(self)@),
    {
        proof {
            use_type_invariant(&*self);
            (*self).lemma_inv_fits();
        }
        if (char_width(key) as u16) > u16::MAX - KV_SPACING {
            return false;
        }
        self.add_row(key, value);
        true
    }

    /// The text of the view as it is printed: each pair on a line of its own,
    /// then an empty line.
    pub fn print_kv(&self) -> (r: String)
        ensures
            r@ == kv_text(self@),
    {
        proof {
            use_type_invariant(self);
        }
        let ghost m = self@;
        let n = self.rows.len();
        let mut s = String::new();
        let mut r: usize = 0;
        while r < n
            invariant
                n == self.rows@.len(),
                m == self@,
                r <= n,
                s@ == joined(
                    Seq::new(
                        r as nat,
                        |k: int| kv_row_text(m.rows[k].0, m.rows[k].1, m.key_width) + seq!['\n'],
                    ),
                ),
            decreases n - r,
        {
            proof {
                use_type_invariant(self);
                lemma_joined_step(
                    |k: int| kv_row_text(m.rows[k].0, m.rows[k].1, m.key_width) + seq!['\n'],
                    r as nat,
                );
            }
            let row = &self.rows[r];
            let t = print_row(row.0.as_str(), row.1.as_str(), self.key_width);
            push_str(&mut s, t.as_str());
            push_char(&mut s, '\n');
            r = r + 1;
            assert(s@ =~= joined(
                Seq::new(
                    r as nat,
                    |k: int| kv_row_text(m.rows[k].0, m.rows[k].1, m.key_width) + seq!['\n'],
                ),
            ));
        }
        push_char(&mut s, '\n');
        s
    }
}

} // verus!
