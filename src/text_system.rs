//! Fonts loaded from memory, grouped by family name.

use vstd::prelude::*;

verus! {

/// One loaded font: the family it belongs to and its PostScript name.
#[derive(Clone, Debug)]
pub struct FamilyEntry {
    pub family_name: String,
    pub postscript_name: String,
}

/// Indices, in order, of the fonts among the first `n` whose family is `name`.
pub open spec fn family_members(fonts: Seq<FamilyEntry>, name: Seq<char>, n: int) -> Seq<usize>
    decreases n,
{
    if n <= 0 {
        seq![]
    } else {
        let p = family_members(fonts, name, n - 1);
        if fonts[n - 1].family_name@ == name {
            p.push((n - 1) as usize)
        } else {
            p
        }
    }
}

/// Fonts that were handed to the text system as bytes.
#[derive(Clone, Debug)]
pub struct MemSource {
    pub families: Vec<FamilyEntry>,
}

impl MemSource {
    /// A source with no font.
    pub fn empty() -> (r: MemSource)
        ensures
            r.families@.len() == 0,
    {
        MemSource { families: Vec::new() }
    }

    /// Adds a font of family `family_name`.
    pub fn add_font(&mut self, family_name: String, postscript_name: String)
        ensures
            final(self).families@ == old(self).families@.push(FamilyEntry { family_name, postscript_name }),
    {
        self.families.push(FamilyEntry { family_name, postscript_name });
    }

    /// The fonts of the family named `family_name` (exact match), as indices
    /// into `families` in the order they were added; `Err` where the source
    /// holds no font of that family.
    pub fn select_family_by_name(&self, family_name: &str) -> (r: Result<Vec<usize>, ()>)
        ensures
            r is Err <==> family_members(self.families@, family_name@, self.families@.len() as int).len() == 0,
            r matches Ok(v) ==> v@ == family_members(self.families@, family_name@, self.families@.len() as int),
    {
        let name = family_name.to_owned();
        let mut members: Vec<usize> = Vec::new();
        let mut i: usize = 0;
        while i < self.families.len()
            invariant
                name@ == family_name@,
                i <= self.families@.len(),
                members@ == family_members(self.families@, family_name@, i as int),
            decreases self.families@.len() - i,
        {
            if self.families[i].family_name == name {
                members.push(i);
            }
            i = i + 1;
        }
        if members.len() == 0 {
            Err(())
        } else {
            Ok(members)
        }
    }
}

} // verus!
