//! Resource identifiers: namespaced names such as `minecraft:stone`.

use vstd::prelude::*;
use vstd::string::StringExecFns;

verus! {

/// A two-part name, `namespace:path`.
#[derive(Debug, Clone, PartialEq, Eq, Hash)]
pub struct ResourceLocation {
    pub namespace: String,
    pub path: String,
}

impl ResourceLocation {
    /// The canonical string form: the namespace, a colon, the path.
    pub open spec fn canonical(&self) -> Seq<char> {
        self.namespace@ + seq![':'] + self.path@
    }

    /// The canonical string form as a `String`.
    pub fn to_string(&self) -> (s: String)
        ensures
            s@ == self.canonical(),
    {
        let mut s = self.namespace.clone();
        s.append(":");
        s.append(self.path.as_str());
        proof {
            reveal_strlit(":");
            assert(":"@ =~= seq![':']);
        }
        s
    }
}

} // verus!
