//! Which PoX anchor blocks a node knows.
use vstd::prelude::*;
use vstd::string::StringExecFns;

verus! {

/// One bit per reward cycle: whether the anchor block of that cycle is known.
#[derive(Debug, Clone, PartialEq, Eq)]
pub struct PoxId(Vec<bool>);

impl View for PoxId {
    type V = Seq<bool>;

    closed spec fn view(&self) -> Seq<bool> {
        self.0@
    }
}

impl PoxId {
    /// An identifier with the given bits, the earliest cycle first.
    pub fn new(contents: Vec<bool>) -> (id: PoxId)
        ensures
            id@ == contents@,
    {
        PoxId(contents)
    }

    /// The bits as digits.
    pub open spec fn text(&self) -> Seq<char> {
        self@.map_values(
            |known: bool|
                if known {
                    '1'
                } else {
                    '0'
                },
        )
    }

    /// The bits as digits, the earliest cycle first.
    pub fn to_string(&self) -> (text: String)
        ensures
            text@ == self.text(),
    {
        proof {
            reveal_strlit("0");
            reveal_strlit("1");
        }
        let mut text = String::new();
        for i in 0..self.0.len()
            invariant
                text@ == self.text().take(i as int),
                "0"@ =~= seq!['0'],
                "1"@ =~= seq!['1'],
        {
            text.append(
                if self.0[i] {
                    "1"
                } else {
                    "0"
                },
            );
            assert(text@ =~= self.text().take(i + 1));
        }
        assert(self.text().take(self.0@.len() as int) =~= self.text());
        text
    }
}

/// The text of an identifier has one digit per cycle, in order: 1 where the anchor block is
/// known and 0 where it is not.
pub proof fn text_has_one_digit_per_cycle(id: PoxId, cycle: int)
    requires
        0 <= cycle < id@.len(),
    ensures
        id.text().len() == id@.len(),
        id.text()[cycle] == '1' <==> id@[cycle],
        id.text()[cycle] == '0' <==> !id@[cycle],
{
}

} // verus!
