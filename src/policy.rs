//! The two-branch spending policy as an explicit expression tree, what it
//! takes to satisfy it, and its miniscript text.
use vstd::prelude::*;
use vstd::string::*;

verus! {

/// Number of confirmations after which the redeemer branch opens.
pub const TIMELOCK_BLOCKS: u32 = 1000;

/// A spending condition over signatures and the age of the spent output.
pub enum Policy {
    /// A signature by the given descriptor key.
    Pk { key: String },
    /// The spent output has at least `blocks` confirmations.
    Older { blocks: u32 },
    /// `(cond AND when_true) OR when_false`.
    AndOr { cond: Box<Policy>, when_true: Box<Policy>, when_false: Box<Policy> },
}

/// Whether `key` is among the keys that signed.
pub open spec fn signed_by(signers: Seq<String>, key: Seq<char>) -> bool {
    exists|i: int| 0 <= i < signers.len() && (#[trigger] signers[i])@ == key
}

/// Whether the policy is met by the given signatures on an output `age` blocks old.
pub open spec fn satisfied(p: Policy, signers: Seq<String>, age: nat) -> bool
    decreases p,
{
    match p {
        Policy::Pk { key } => signed_by(signers, key@),
        Policy::Older { blocks } => age >= blocks,
        Policy::AndOr { cond, when_true, when_false } => (satisfied(*cond, signers, age)
            && satisfied(*when_true, signers, age)) || satisfied(*when_false, signers, age),
    }
}

pub open spec fn digit_char(d: nat) -> char {
    if d == 0 { '0' }
    else if d == 1 { '1' }
    else if d == 2 { '2' }
    else if d == 3 { '3' }
    else if d == 4 { '4' }
    else if d == 5 { '5' }
    else if d == 6 { '6' }
    else if d == 7 { '7' }
    else if d == 8 { '8' }
    else { '9' }
}

/// Decimal digits of `n`, most significant first, without leading zeros.
pub open spec fn decimal(n: nat) -> Seq<char>
    decreases n,
{
    if n < 10 {
        seq![digit_char(n)]
    } else {
        decimal(n / 10) + seq![digit_char(n % 10)]
    }
}

/// Miniscript text of a policy.
pub open spec fn render(p: Policy) -> Seq<char>
    decreases p,
{
    match p {
        Policy::Pk { key } => "pk("@ + key@ + ")"@,
        Policy::Older { blocks } => "older("@ + decimal(blocks as nat) + ")"@,
        Policy::AndOr { cond, when_true, when_false } => "andor("@ + render(*cond) + ","@
            + render(*when_true) + ","@ + render(*when_false) + ")"@,
    }
}

fn digit_str(d: u32) -> (r: &'static str)
    requires
        d < 10,
    ensures
        r@ == seq![digit_char(d as nat)],
{
    proof {
        reveal_strlit("0");
        reveal_strlit("1");
        reveal_strlit("2");
        reveal_strlit("3");
        reveal_strlit("4");
        reveal_strlit("5");
        reveal_strlit("6");
        reveal_strlit("7");
        reveal_strlit("8");
        reveal_strlit("9");
    }
    if d == 0 { "0" }
    else if d == 1 { "1" }
    else if d == 2 { "2" }
    else if d == 3 { "3" }
    else if d == 4 { "4" }
    else if d == 5 { "5" }
    else if d == 6 { "6" }
    else if d == 7 { "7" }
    else if d == 8 { "8" }
    else { "9" }
}

/// The decimal text of `n`.
pub fn decimal_string(n: u32) -> (r: String)
    ensures
        r@ == decimal(n as nat),
    decreases n,
{
    if n < 10 {
        String::from_str(digit_str(n))
    } else {
        let mut s = decimal_string(n / 10);
        s.append(digit_str(n % 10));
        s
    }
}

/// Whether `key` is one of `signers`.
pub fn has_signer(signers: &Vec<String>, key: &String) -> (r: bool)
    ensures
        r == signed_by(signers@, key@),
{
    let mut i: usize = 0;
    while i < signers.len()
        invariant
            i <= signers@.len(),
            forall|j: int| 0 <= j < i ==> (#[trigger] signers@[j])@ != key@,
        decreases signers@.len() - i,
    {
        if signers[i] == *key {
            return true;
        }
        i = i + 1;
    }
    false
}

impl Policy {
    /// Whether the policy is met by `signers` on an output `age` blocks old.
    pub fn is_satisfied(&self, signers: &Vec<String>, age: u32) -> (r: bool)
        ensures
            r == satisfied(*self, signers@, age as nat),
        decreases self,
    {
        match self {
            Policy::Pk { key } => has_signer(signers, key),
            Policy::Older { blocks } => age >= *blocks,
            Policy::AndOr { cond, when_true, when_false } => {
                (cond.is_satisfied(signers, age) && when_true.is_satisfied(signers, age))
                    || when_false.is_satisfied(signers, age)
            },
        }
    }

    /// The miniscript text of the policy.
    pub fn to_miniscript(&self) -> (r: String)
        ensures
            r@ == render(*self),
        decreases self,
    {
        match self {
            Policy::Pk { key } => {
                let mut s = String::from_str("pk(");
                s.append(key.as_str());
                s.append(")");
                proof {
                    reveal_strlit("pk(");
                    reveal_strlit(")");
                }
                s
            },
            Policy::Older { blocks } => {
                let mut s = String::from_str("older(");
                let d = decimal_string(*blocks);
                s.append(d.as_str());
                s.append(")");
                proof {
                    reveal_strlit("older(");
                    reveal_strlit(")");
                }
                s
            },
            Policy::AndOr { cond, when_true, when_false } => {
                let a = cond.to_miniscript();
                let b = when_true.to_miniscript();
                let c = when_false.to_miniscript();
                let mut s = String::from_str("andor(");
                s.append(a.as_str());
                s.append(",");
                s.append(b.as_str());
                s.append(",");
                s.append(c.as_str());
                s.append(")");
                proof {
                    reveal_strlit("andor(");
                    reveal_strlit(",");
                    reveal_strlit(")");
                }
                s
            },
        }
    }
}

} // verus!
