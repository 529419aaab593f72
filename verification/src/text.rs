//! Text building blocks shared by the encoders and decoders: comparison of
//! texts, decimal numerals, and comma-separated lists.

use vstd::prelude::*;
use vstd::string::*;

verus! {

/// `str`'s equality compares the two texts character by character, as the
/// standard library documents.
pub assume_specification[ <str as PartialEq>::eq ](a: &str, b: &str) -> (equal: bool)
    ensures
        equal == (a@ == b@),
;

/// Whether two texts are the same.
pub fn same_text(a: &str, b: &str) -> (equal: bool)
    ensures
        equal == (a@ == b@),
{
    a.eq(b)
}

/// The decimal digit for `d`, where `d` is below ten.
pub open spec fn digit(d: nat) -> char {
    if d == 0 {
        '0'
    } else if d == 1 {
        '1'
    } else if d == 2 {
        '2'
    } else if d == 3 {
        '3'
    } else if d == 4 {
        '4'
    } else if d == 5 {
        '5'
    } else if d == 6 {
        '6'
    } else if d == 7 {
        '7'
    } else if d == 8 {
        '8'
    } else {
        '9'
    }
}

/// The decimal numeral of `n`: no sign, no leading zero but for zero itself.
pub open spec fn decimal(n: nat) -> Seq<char>
    decreases n,
{
    if n < 10 {
        seq![digit(n)]
    } else {
        decimal(n / 10).push(digit(n % 10))
    }
}

/// The decimal numeral of an integer of either sign.
pub open spec fn signed_decimal(n: int) -> Seq<char> {
    if n < 0 {
        seq!['-'] + decimal((-n) as nat)
    } else {
        decimal(n as nat)
    }
}

/// A numeral is never empty, and all it holds are digits.
pub proof fn lemma_decimal_digits(n: nat)
    ensures
        decimal(n).len() >= 1,
        n >= 10 ==> decimal(n).len() >= 2,
        forall|i: int| 0 <= i < decimal(n).len() ==> '0' <= #[trigger] decimal(n)[i] <= '9',
    decreases n,
{
    if n >= 10 {
        lemma_decimal_digits(n / 10);
    }
}

/// Two numbers with the same numeral are the same number: writing a number
/// in decimal loses nothing of it.
pub proof fn lemma_decimal_injective(a: nat, b: nat)
    requires
        decimal(a) == decimal(b),
    ensures
        a == b,
    decreases a,
{
    lemma_decimal_digits(a);
    lemma_decimal_digits(b);
    if a >= 10 {
        let left = decimal(a / 10);
        let right = decimal(b / 10);
        assert(decimal(a).drop_last() =~= left);
        assert(decimal(b).drop_last() =~= right);
        assert(decimal(a).last() == digit(a % 10));
        assert(decimal(b).last() == digit(b % 10));
        lemma_decimal_injective(a / 10, b / 10);
    } else {
        assert(decimal(a)[0] == digit(a));
        assert(decimal(b)[0] == digit(b));
    }
}

fn digit_text(d: u64) -> (s: &'static str)
    requires
        d < 10,
    ensures
        s@ == seq![digit(d as nat)],
{
    proof {
        reveal_strlit("0");
        reveal_strlit("1");
        reveal_strlit("2");
        reveal_strlit("3");
        reveal_strlit("4");
        reveal_strlit("5");
        reveal_strlit("6");
        reveal_strlit("7");
        reveal_strlit("8");
        reveal_strlit("9");
    }
    let s = if d == 0 {
        "0"
    } else if d == 1 {
        "1"
    } else if d == 2 {
        "2"
    } else if d == 3 {
        "3"
    } else if d == 4 {
        "4"
    } else if d == 5 {
        "5"
    } else if d == 6 {
        "6"
    } else if d == 7 {
        "7"
    } else if d == 8 {
        "8"
    } else {
        "9"
    };
    assert(s@ =~= seq![digit(d as nat)]);
    s
}

/// Prints `n` in decimal.
pub fn unsigned_text(n: u64) -> (s: String)
    ensures
        s@ == decimal(n as nat),
    decreases n,
{
    if n < 10 {
        String::from_str(digit_text(n))
    } else {
        let mut s = unsigned_text(n / 10);
        s.append(digit_text(n % 10));
        assert(s@ =~= decimal((n / 10) as nat).push(digit((n % 10) as nat)));
        s
    }
}

/// Prints `n` in decimal, with a minus sign where it is negative.
pub fn signed_text(n: i32) -> (s: String)
    ensures
        s@ == signed_decimal(n as int),
{
    if n < 0 {
        let magnitude: u64 = (-(n as i64)) as u64;
        let digits = unsigned_text(magnitude);
        proof {
            reveal_strlit("-");
        }
        let s = String::from_str("-").concat(digits.as_str());
        assert(s@ =~= seq!['-'] + decimal((-(n as int)) as nat));
        s
    } else {
        unsigned_text(n as u64)
    }
}

/// The texts of `items` in order, with a comma between neighbours.
pub open spec fn joined(items: Seq<Seq<char>>) -> Seq<char>
    decreases items.len(),
{
    if items.len() == 0 {
        Seq::empty()
    } else if items.len() == 1 {
        items[0]
    } else {
        joined(items.drop_last()) + seq![','] + items.last()
    }
}

/// A JSON array whose elements are the given texts.
pub open spec fn array_text(items: Seq<Seq<char>>) -> Seq<char> {
    seq!['['] + joined(items) + seq![']']
}

/// One member of a JSON object, `"key":value`, for a key that needs no
/// escaping.
pub open spec fn member_text(member: (Seq<char>, Seq<char>)) -> Seq<char> {
    seq!['"'] + member.0 + seq!['"', ':'] + member.1
}

/// A JSON object with the given members, each a key and the text of a
/// value, in the order given.
pub open spec fn object_text(members: Seq<(Seq<char>, Seq<char>)>) -> Seq<char> {
    seq!['{'] + joined(member_texts(members)) + seq!['}']
}

/// A tag that needs no escaping, between double quotes.
pub open spec fn quoted_tag(tag: Seq<char>) -> Seq<char> {
    seq!['"'] + tag + seq!['"']
}

/// Puts `tag` between double quotes.
pub fn quote_tag(tag: &str) -> (s: String)
    ensures
        s@ == quoted_tag(tag@),
{
    proof {
        reveal_strlit("\"");
    }
    let s = String::from_str("\"").concat(tag).concat("\"");
    assert(s@ =~= quoted_tag(tag@));
    s
}

/// A comma-separated list under construction.
pub struct ListWriter {
    out: String,
    empty: bool,
    items: Ghost<Seq<Seq<char>>>,
}

impl ListWriter {
    /// The items written so far.
    pub closed spec fn items(&self) -> Seq<Seq<char>> {
        self.items@
    }

    /// The text so far is the joined items, and the flag tells whether there
    /// are any.
    pub closed spec fn wf(&self) -> bool {
        &&& self.out@ == joined(self.items@)
        &&& self.empty == (self.items@.len() == 0)
    }

    /// A list with no items.
    pub fn new() -> (w: ListWriter)
        ensures
            w.wf(),
            w.items() == Seq::<Seq<char>>::empty(),
    {
        ListWriter { out: String::new(), empty: true, items: Ghost(Seq::empty()) }
    }

    fn separate(&mut self)
        requires
            old(self).wf(),
        ensures
            final(self).items == old(self).items,
            final(self).empty == old(self).empty,
            final(self).out@ == if old(self).empty {
                Seq::<char>::empty()
            } else {
                joined(old(self).items@) + seq![',']
            },
    {
        if !self.empty {
            proof {
                reveal_strlit(",");
            }
            self.out.append(",");
            assert(self.out@ =~= joined(old(self).items@) + seq![',']);
        }
    }

    /// Adds one item.
    pub fn item(&mut self, text: &str)
        requires
            old(self).wf(),
        ensures
            final(self).wf(),
            final(self).items() == old(self).items().push(text@),
    {
        self.separate();
        self.out.append(text);
        self.empty = false;
        proof {
            let before = old(self).items@;
            let after = before.push(text@);
            self.items = Ghost(after);
            assert(after.drop_last() =~= before);
            assert(self.out@ =~= joined(after));
        }
    }

    /// Adds one member of an object: the key between quotes, a colon, the
    /// value.
    pub fn member(&mut self, key: &str, value: &str)
        requires
            old(self).wf(),
        ensures
            final(self).wf(),
            final(self).items() == old(self).items().push(member_text((key@, value@))),
    {
        self.separate();
        proof {
            reveal_strlit("\"");
            reveal_strlit("\":");
        }
        self.out.append("\"");
        self.out.append(key);
        self.out.append("\":");
        self.out.append(value);
        self.empty = false;
        proof {
            let before = old(self).items@;
            let after = before.push(member_text((key@, value@)));
            self.items = Ghost(after);
            assert(after.drop_last() =~= before);
            assert(self.out@ =~= joined(after));
        }
    }

    /// Closes the list as a JSON array.
    pub fn into_array(self) -> (s: String)
        requires
            self.wf(),
        ensures
            s@ == array_text(self.items()),
    {
        proof {
            reveal_strlit("[");
            reveal_strlit("]");
        }
        let s = String::from_str("[").concat(self.out.as_str()).concat("]");
        assert(s@ =~= array_text(self.items@));
        s
    }
}

/// The texts of the members of an object, each as it is written.
pub open spec fn member_texts(members: Seq<(Seq<char>, Seq<char>)>) -> Seq<Seq<char>> {
    members.map_values(|m: (Seq<char>, Seq<char>)| member_text(m))
}

/// A JSON object under construction.
pub struct ObjectWriter {
    list: ListWriter,
    members: Ghost<Seq<(Seq<char>, Seq<char>)>>,
}

impl ObjectWriter {
    /// The members written so far, each a key and the text of a value.
    pub closed spec fn members(&self) -> Seq<(Seq<char>, Seq<char>)> {
        self.members@
    }

    /// The list holds the members written so far.
    pub closed spec fn wf(&self) -> bool {
        &&& self.list.wf()
        &&& self.list.items() == member_texts(self.members@)
    }

    /// An object with no members.
    pub fn new() -> (w: ObjectWriter)
        ensures
            w.wf(),
            w.members() == Seq::<(Seq<char>, Seq<char>)>::empty(),
    {
        let w = ObjectWriter { list: ListWriter::new(), members: Ghost(Seq::empty()) };
        assert(w.list.items() =~= member_texts(w.members@));
        w
    }

    /// Adds one member. The key is written between quotes as it stands, so
    /// it must need no escaping.
    pub fn member(&mut self, key: &str, value: &str)
        requires
            old(self).wf(),
        ensures
            final(self).wf(),
            final(self).members() == old(self).members().push((key@, value@)),
    {
        self.list.member(key, value);
        proof {
            let after = old(self).members@.push((key@, value@));
            self.members = Ghost(after);
            assert(self.list.items() =~= member_texts(after));
        }
    }

    /// Closes the object.
    pub fn finish(self) -> (s: String)
        requires
            self.wf(),
        ensures
            s@ == object_text(self.members()),
    {
        proof {
            reveal_strlit("{");
            reveal_strlit("}");
        }
        let ObjectWriter { list, members: _ } = self;
        let s = String::from_str("{").concat(list.out.as_str()).concat("}");
        assert(s@ =~= object_text(self.members@));
        s
    }
}

} // verus!
