use vstd::prelude::*;

use crate::compiler::Registry;
use crate::model::{opt_view, text_result, DefinitionError};
use crate::template::{derive_shaped_query, expansion};

verus! {

/// The cache cell of one expansion site: it holds the expanded query once the
/// first expansion succeeds, and hands out that text from then on.
pub struct QueryCell {
    value: Option<String>,
    expansions: u64,
}

impl QueryCell {
    /// The cached text, if the cell has been filled.
    pub closed spec fn cached(&self) -> Option<Seq<char>> {
        opt_view(self.value)
    }

    /// How many times this cell has run an expansion (saturating).
    pub closed spec fn expansion_count(&self) -> u64 {
        self.expansions
    }

    /// An empty cell.
    pub fn new() -> (r: QueryCell)
        ensures
            r.cached() is None,
            r.expansion_count() == 0,
    {
        QueryCell { value: None, expansions: 0 }
    }

    /// The cached text, if the cell has been filled.
    pub fn get(&self) -> (r: Option<String>)
        ensures
            opt_view(r) == self.cached(),
    {
        match &self.value {
            Some(s) => Some(s.clone()),
            None => None,
        }
    }

    /// How many times this cell has run an expansion.
    pub fn expansions(&self) -> (r: u64)
        ensures
            r == self.expansion_count(),
    {
        self.expansions
    }

    /// The expansion of `template` over `reg`, computed on the first call
    /// that succeeds and returned from the cell on every later call without
    /// expanding again. A failed expansion leaves the cell empty.
    pub fn get_or_expand(&mut self, template: &str, reg: &Registry) -> (r: Result<String, DefinitionError>)
        ensures
            match old(self).cached() {
                Some(v) => {
                    &&& r matches Ok(s) && s@ == v
                    &&& final(self).cached() == Some(v)
                    &&& final(self).expansion_count() == old(self).expansion_count()
                },
                None => {
                    &&& text_result(r) == expansion(reg@, template@)
                    &&& final(self).cached() == match r {
                        Ok(s) => Some(s@),
                        Err(_) => None::<Seq<char>>,
                    }
                    &&& final(self).expansion_count() == if old(self).expansion_count() < u64::MAX {
                        (old(self).expansion_count() + 1) as u64
                    } else {
                        u64::MAX
                    }
                },
            },
    {
        if let Some(s) = &self.value {
            return Ok(s.clone());
        }
        if self.expansions < u64::MAX {
            self.expansions = self.expansions + 1;
        }
        let r = derive_shaped_query(template, reg);
        if let Ok(s) = &r {
            self.value = Some(s.clone());
        }
        r
    }
}

} // verus!
