use vstd::prelude::*;

verus! {

/// Congestion-control algorithm, independent of any particular QUIC stack.
#[derive(Debug, Clone, Copy, PartialEq, Eq, Structural)]
pub enum CcAlgorithm {
    /// CUBIC
    Cubic,
    /// BBR (the default)
    Bbr,
    /// BBRv3 (experimental)
    Bbr3,
    /// COPA (experimental)
    Copa,
    /// Dummy (static congestion window, for tests)
    Dummy,
}

impl CcAlgorithm {
    /// The lower-case name of the algorithm, the same name the configuration
    /// file uses for it.
    pub open spec fn name(self) -> Seq<char> {
        match self {
            CcAlgorithm::Cubic => "cubic"@,
            CcAlgorithm::Bbr => "bbr"@,
            CcAlgorithm::Bbr3 => "bbr3"@,
            CcAlgorithm::Copa => "copa"@,
            CcAlgorithm::Dummy => "dummy"@,
        }
    }

    /// Name of the algorithm.
    pub fn as_str(&self) -> (r: &'static str)
        ensures
            r@ == self.name(),
    {
        match self {
            CcAlgorithm::Cubic => "cubic",
            CcAlgorithm::Bbr => "bbr",
            CcAlgorithm::Bbr3 => "bbr3",
            CcAlgorithm::Copa => "copa",
            CcAlgorithm::Dummy => "dummy",
        }
    }
}

/// Distinct algorithms have distinct names, so a name read back from a
/// configuration file identifies exactly one algorithm.
pub proof fn lemma_cc_names_distinct(a: CcAlgorithm, b: CcAlgorithm)
    requires
        a != b,
    ensures
        a.name() != b.name(),
{
    reveal_strlit("cubic");
    reveal_strlit("bbr");
    reveal_strlit("bbr3");
    reveal_strlit("copa");
    reveal_strlit("dummy");
    if a.name() == b.name() {
        // names of different lengths, or differing in their first or last letter
        assert(a.name().len() == b.name().len());
        assert(a.name()[0] == b.name()[0]);
        assert(a.name()[a.name().len() - 1] == b.name()[b.name().len() - 1]);
    }
}

/// Each algorithm is named by its lower-case identifier, the name the
/// configuration file uses (`cubic`, `bbr`, `bbr3`, `copa`, `dummy`).
pub proof fn law_cc_names(a: CcAlgorithm)
    ensures
        a == CcAlgorithm::Cubic ==> a.name() == seq!['c', 'u', 'b', 'i', 'c'],
        a == CcAlgorithm::Bbr ==> a.name() == seq!['b', 'b', 'r'],
        a == CcAlgorithm::Bbr3 ==> a.name() == seq!['b', 'b', 'r', '3'],
        a == CcAlgorithm::Copa ==> a.name() == seq!['c', 'o', 'p', 'a'],
        a == CcAlgorithm::Dummy ==> a.name() == seq!['d', 'u', 'm', 'm', 'y'],
{
    reveal_strlit("cubic");
    reveal_strlit("bbr");
    reveal_strlit("bbr3");
    reveal_strlit("copa");
    reveal_strlit("dummy");
    assert(CcAlgorithm::Cubic.name() =~= seq!['c', 'u', 'b', 'i', 'c']);
    assert(CcAlgorithm::Bbr.name() =~= seq!['b', 'b', 'r']);
    assert(CcAlgorithm::Bbr3.name() =~= seq!['b', 'b', 'r', '3']);
    assert(CcAlgorithm::Copa.name() =~= seq!['c', 'o', 'p', 'a']);
    assert(CcAlgorithm::Dummy.name() =~= seq!['d', 'u', 'm', 'm', 'y']);
}

impl Default for CcAlgorithm {
    /// BBR is the default algorithm.
    fn default() -> (r: Self)
        ensures
            r == CcAlgorithm::Bbr,
    {
        CcAlgorithm::Bbr
    }
}

} // verus!
