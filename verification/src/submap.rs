//! The submap widget's domain logic: translating a submap name to the label
//! text it shows. The default submap shows nothing; any other name is first
//! looked up in the widget's translation table and shown as itself when the
//! table holds no entry for it.

use vstd::prelude::*;

use crate::strutil::str_eq;

verus! {

/// The submap widget's settings: the translation table from submap names to
/// label texts, in configuration order.
#[derive(Clone, Debug)]
pub struct HyprlandSubmapModule {
    pub map: Vec<(String, String)>,
}

/// The first translation the table holds for `name`, or `name` itself.
pub open spec fn lookup_label(map: Seq<(String, String)>, name: Seq<char>) -> Seq<char>
    decreases map.len(),
{
    if map.len() == 0 {
        name
    } else if map[0].0@ == name {
        map[0].1@
    } else {
        lookup_label(map.drop_first(), name)
    }
}

/// The label text a submap shows: nothing for the default submap, otherwise
/// its translation, or its own name without one.
pub open spec fn spec_submap_label(map: Seq<(String, String)>, name: Seq<char>) -> Seq<char> {
    if name == "default"@ {
        Seq::empty()
    } else {
        lookup_label(map, name)
    }
}

impl HyprlandSubmapModule {
    /// A widget without translations: every submap shows its own name.
    pub fn new() -> (m: HyprlandSubmapModule)
        ensures
            m.map@ == Seq::<(String, String)>::empty(),
    {
        HyprlandSubmapModule { map: Vec::new() }
    }

    /// The label text this widget shows for one submap name.
    pub fn label_for_submap(&self, submap: &String) -> (r: String)
        ensures
            r@ == spec_submap_label(self.map@, submap@),
    {
        if str_eq(submap.as_str(), "default") {
            return String::new();
        }
        let n = self.map.len();
        proof {
            assert(self.map@.skip(0) =~= self.map@);
        }
        for i in 0..n
            invariant
                n == self.map@.len(),
                submap@ != "default"@,
                lookup_label(self.map@, submap@) == lookup_label(self.map@.skip(i as int), submap@),
        {
            proof {
                assert(self.map@.skip(i as int)[0] == self.map@[i as int]);
                assert(self.map@.skip(i as int).drop_first() =~= self.map@.skip(i + 1));
            }
            if str_eq(self.map[i].0.as_str(), submap.as_str()) {
                return self.map[i].1.clone();
            }
        }
        proof {
            assert(self.map@.skip(n as int) =~= Seq::<(String, String)>::empty());
        }
        submap.clone()
    }
}

} // verus!
