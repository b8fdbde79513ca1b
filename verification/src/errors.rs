//! What errors carry.
use vstd::prelude::*;

verus! {

/// What an error carries besides its sort.
#[derive(Debug)]
pub struct Detail {
    /// What the error says, empty where its sort says all.
    pub text: String,
    /// What was being done when it came up, where it was handed on.
    pub context: Option<String>,
}

/// A [`Detail`] as text.
pub struct DetailView {
    pub text: Seq<char>,
    pub context: Option<Seq<char>>,
}

/// A text that may be there.
pub open spec fn optional_text(text: Option<String>) -> Option<Seq<char>> {
    match text {
        Some(text) => Some(text@),
        None => None,
    }
}

impl View for Detail {
    type V = DetailView;

    open spec fn view(&self) -> DetailView {
        DetailView { text: self.text@, context: optional_text(self.context) }
    }
}

/// The detail of an error whose sort says all.
pub open spec fn bare() -> DetailView {
    DetailView { text: Seq::empty(), context: None }
}

impl Detail {
    /// The detail of an error whose sort says all.
    pub fn bare() -> (r: Detail)
        ensures
            r@ == bare(),
    {
        let r = Detail { text: String::new(), context: None };
        assert(r@.text =~= Seq::<char>::empty());
        r
    }
}

/// The detail of an error whose sort says all, says nothing.
pub proof fn bare_detail_says_nothing(r: Detail)
    requires
        call_ensures(Detail::bare, (), r),
    ensures
        r.text@.len() == 0,
        r.context is None,
{
}

} // verus!
