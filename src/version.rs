//! A semantic version held as plain values: three numbers, and the
//! pre-release and build identifiers as text.
use vstd::prelude::*;
use crate::text::push_str;

verus! {

#[derive(Clone, Debug)]
pub struct Version {
    pub major: u64,
    pub minor: u64,
    pub patch: u64,
    /// Dot-separated pre-release identifiers, empty when there are none.
    pub pre: String,
    /// Dot-separated build metadata, empty when there is none.
    pub build: String,
}

pub struct VersionView {
    pub major: u64,
    pub minor: u64,
    pub patch: u64,
    pub pre: Seq<char>,
    pub build: Seq<char>,
}

impl View for Version {
    type V = VersionView;

    open spec fn view(&self) -> VersionView {
        VersionView {
            major: self.major,
            minor: self.minor,
            patch: self.patch,
            pre: self.pre@,
            build: self.build@,
        }
    }
}

/// The digits of `n` in base ten.
pub open spec fn decimal_text(n: nat) -> Seq<char>
    decreases n,
{
    if n < 10 {
        seq![digit_char(n)]
    } else {
        decimal_text(n / 10) + seq![digit_char(n % 10)]
    }
}

pub open spec fn digit_char(d: nat) -> char {
    if d == 0 { '0' }
    else if d == 1 { '1' }
    else if d == 2 { '2' }
    else if d == 3 { '3' }
    else if d == 4 { '4' }
    else if d == 5 { '5' }
    else if d == 6 { '6' }
    else if d == 7 { '7' }
    else if d == 8 { '8' }
    else { '9' }
}

/// `major.minor.patch`, then `-pre` and `+build` where they are not empty.
pub open spec fn version_text(v: VersionView) -> Seq<char> {
    let core = decimal_text(v.major as nat) + seq!['.'] + decimal_text(v.minor as nat) + seq!['.']
        + decimal_text(v.patch as nat);
    let with_pre = if v.pre.len() > 0 { core + seq!['-'] + v.pre } else { core };
    if v.build.len() > 0 { with_pre + seq!['+'] + v.build } else { with_pre }
}

/// Relies on the standard `Display` of `u64` (through `to_string`): the
/// number written in base ten.
#[verifier::external_body]
fn decimal_string(n: u64) -> (r: String)
    ensures
        r@ == decimal_text(n as nat),
{
    n.to_string()
}

impl Version {
    pub fn new(major: u64, minor: u64, patch: u64) -> (r: Version)
        ensures
            r@ == (VersionView { major, minor, patch, pre: Seq::empty(), build: Seq::empty() }),
    {
        Version { major, minor, patch, pre: String::new(), build: String::new() }
    }

    pub fn duplicate(&self) -> (r: Version)
        ensures
            r@ == self@,
    {
        Version {
            major: self.major,
            minor: self.minor,
            patch: self.patch,
            pre: self.pre.clone(),
            build: self.build.clone(),
        }
    }

    /// Versions are equal when all five parts are.
    pub fn same(&self, other: &Version) -> (r: bool)
        ensures
            r == (self@ == other@),
    {
        self.major == other.major && self.minor == other.minor && self.patch == other.patch
            && self.pre == other.pre && self.build == other.build
    }

    /// The version as text, as `cargo install --version` takes it.
    pub fn text(&self) -> (r: String)
        ensures
            r@ == version_text(self@),
    {
        let mut s = decimal_string(self.major);
        push_str(&mut s, ".");
        let minor = decimal_string(self.minor);
        push_str(&mut s, minor.as_str());
        push_str(&mut s, ".");
        let patch = decimal_string(self.patch);
        push_str(&mut s, patch.as_str());
        proof {
            reveal_strlit(".");
        }
        if !self.pre.as_str().is_empty() {
            push_str(&mut s, "-");
            push_str(&mut s, self.pre.as_str());
            proof {
                reveal_strlit("-");
            }
        }
        if !self.build.as_str().is_empty() {
            push_str(&mut s, "+");
            push_str(&mut s, self.build.as_str());
            proof {
                reveal_strlit("+");
            }
        }
        s
    }
}

} // verus!
