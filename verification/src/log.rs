//! Logging settings: where log lines go and which filter
//! directives apply.  Building and installing the actual logger is
//! the embedding application's work; the comma-joined filter string
//! it needs is computed here.

use vstd::prelude::*;
use vstd::string::StringExecFns;

verus! {

/// The filter directives joined with commas, the form the logger's
/// filter parser takes.
pub open spec fn joined_filters(fs: Seq<Seq<char>>) -> Seq<char>
    decreases fs.len(),
{
    if fs.len() == 0 {
        Seq::empty()
    } else if fs.len() == 1 {
        fs[0]
    } else {
        joined_filters(fs.drop_last()) + seq![','] + fs.last()
    }
}

/// Where log lines go, and which filter directives apply.  With no
/// file set, no logger is installed at all.
#[derive(Debug, Clone, PartialEq, Eq)]
pub struct LogSettings {
    /// A file path, or the literal `stdout` or `stderr`.
    pub file: Option<String>,
    /// Filter directives, joined with commas for the logger.
    pub filters: Vec<String>,
}

impl LogSettings {
    /// The filter directives as one comma-separated string.
    #[verifier::loop_isolation(false)]
    pub fn filter_string(&self) -> (r: String)
        ensures
            r@ == joined_filters(self.filters.deep_view()),
    {
        let mut out = String::new();
        let mut i: usize = 0;
        proof {
            assert(self.filters.deep_view().take(0) =~= Seq::<Seq<char>>::empty());
        }
        while i < self.filters.len()
            invariant
                0 <= i <= self.filters@.len(),
                out@ == joined_filters(self.filters.deep_view().take(i as int)),
            decreases self.filters@.len() - i,
        {
            proof {
                assert(self.filters.deep_view()[i as int] == self.filters@[i as int]@);
                assert(self.filters.deep_view().take(i + 1).drop_last()
                    =~= self.filters.deep_view().take(i as int));
                assert(self.filters.deep_view().take(i + 1).last()
                    == self.filters.deep_view()[i as int]);
            }
            if i > 0 {
                out.append(",");
                proof {
                    reveal_strlit(",");
                    assert(","@ =~= seq![',']);
                }
            }
            out.append(self.filters[i].as_str());
            i += 1;
        }
        proof {
            assert(self.filters.deep_view().take(self.filters@.len() as int)
                =~= self.filters.deep_view());
        }
        out
    }
}

impl Default for LogSettings {
    /// No log file and no filters.
    fn default() -> (r: Self)
        ensures
            r.file is None,
            r.filters@.len() == 0,
    {
        LogSettings { file: None, filters: Vec::new() }
    }
}

} // verus!
