use vstd::prelude::*;
use vstd::string::StringExecFns;

verus! {

/// The text placed between two links of a failure's chain when it is rendered.
pub open spec fn separator() -> Seq<char> {
    seq![':', ' ']
}

/// A chain of messages, outermost first, joined by [`separator`].
pub open spec fn rendered(chain: Seq<Seq<char>>) -> Seq<char>
    decreases chain.len(),
{
    if chain.len() == 0 {
        Seq::empty()
    } else if chain.len() == 1 {
        chain[0]
    } else {
        rendered(chain.drop_last()) + separator() + chain.last()
    }
}

/// A failure: what went wrong, followed by the causes that led to it.
pub struct Failure {
    chain: Vec<String>,
}

impl View for Failure {
    type V = Seq<Seq<char>>;

    closed spec fn view(&self) -> Seq<Seq<char>> {
        self.chain@.map_values(|s: String| s@)
    }
}

impl Failure {
    /// A failure described by one message.
    pub fn new(message: &str) -> (r: Failure)
        ensures
            r@ == seq![message@],
    {
        let mut chain: Vec<String> = Vec::new();
        chain.push(String::from_str(message));
        let r = Failure { chain };
        assert(r@ =~= seq![message@]);
        r
    }

    /// Appends a cause below the causes already recorded.
    pub fn caused_by(self, cause: &str) -> (r: Failure)
        ensures
            r@ == self@.push(cause@),
    {
        let mut chain = self.chain;
        chain.push(String::from_str(cause));
        let r = Failure { chain };
        assert(r@ =~= self@.push(cause@));
        r
    }

    /// The whole chain as one line: each message, outermost first, separated by `": "`.
    pub fn render(&self) -> (r: String)
        ensures
            r@ == rendered(self@),
    {
        let mut out = String::new();
        let mut i: usize = 0;
        while i < self.chain.len()
            invariant
                i <= self.chain@.len(),
                out@ == rendered(self@.subrange(0, i as int)),
            decreases self.chain@.len() - i,
        {
            let ghost before = self@.subrange(0, i as int);
            let ghost after = self@.subrange(0, i as int + 1);
            assert(after.drop_last() =~= before);
            if i > 0 {
                out.append(": ");
                proof {
                    reveal_strlit(": ");
                }
            }
            out.append(self.chain[i].as_str());
            assert(out@ =~= rendered(after));
            i = i + 1;
        }
        assert(self@.subrange(0, self@.len() as int) =~= self@);
        out
    }
}

} // verus!
