use vstd::prelude::*;

verus! {

/// A named, versioned package with its declared phases and its source descriptor.
pub struct Package {
    pub name: String,
    pub version: String,
    /// Names of the phases the package declares, in declaration order.
    pub phases: Vec<String>,
    pub source_url: String,
    pub source_hash: String,
}

/// The character sequences of a list of names.
pub open spec fn names_of(v: Seq<String>) -> Seq<Seq<char>> {
    v.map_values(|s: String| s@)
}

impl Package {
    /// The declared phase names as character sequences.
    pub open spec fn phase_names(&self) -> Seq<Seq<char>> {
        names_of(self.phases@)
    }

    pub fn name(&self) -> (r: &String)
        ensures
            r@ == self.name@,
    {
        &self.name
    }

    pub fn version(&self) -> (r: &String)
        ensures
            r@ == self.version@,
    {
        &self.version
    }
}

/// Whether `x` occurs among `v`, compared by characters.
pub fn contains_name(v: &[String], x: &String) -> (r: bool)
    ensures
        r == names_of(v@).contains(x@),
{
    let mut i: usize = 0;
    while i < v.len()
        invariant
            0 <= i <= v@.len(),
            forall|k: int| 0 <= k < i ==> v@[k]@ != x@,
        decreases v@.len() - i,
    {
        if v[i] == *x {
            assert(names_of(v@)[i as int] == x@);
            return true;
        }
        i = i + 1;
    }
    assert(!names_of(v@).contains(x@)) by {
        assert forall|k: int| 0 <= k < names_of(v@).len() implies names_of(v@)[k] != x@ by {
            assert(names_of(v@)[k] == v@[k]@);
        }
    }
    false
}

} // verus!
