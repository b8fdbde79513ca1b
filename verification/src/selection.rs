//! Reporting which identity was selected, once per change.
use vstd::prelude::*;

verus! {

/// Which identity was selected, and what for.
#[derive(Debug)]
pub enum Selection {
    /// An identity is authorized for a repository on a remote.
    Repository { identity: String, repository: String, remote_domain: String },
    /// An identity is authorized for a resource on a remote.
    Custom { identity: String, resource_id: String, remote_domain: String },
    /// An identity is authenticated for a remote.
    Authenticated { identity: String, remote_domain: String },
}

/// A [`Selection`] as text.
pub enum SelectionView {
    Repository { identity: Seq<char>, repository: Seq<char>, remote_domain: Seq<char> },
    Custom { identity: Seq<char>, resource_id: Seq<char>, remote_domain: Seq<char> },
    Authenticated { identity: Seq<char>, remote_domain: Seq<char> },
}

impl View for Selection {
    type V = SelectionView;

    open spec fn view(&self) -> SelectionView {
        match self {
            Selection::Repository { identity, repository, remote_domain } => {
                SelectionView::Repository {
                    identity: identity@,
                    repository: repository@,
                    remote_domain: remote_domain@,
                }
            },
            Selection::Custom { identity, resource_id, remote_domain } => SelectionView::Custom {
                identity: identity@,
                resource_id: resource_id@,
                remote_domain: remote_domain@,
            },
            Selection::Authenticated { identity, remote_domain } => SelectionView::Authenticated {
                identity: identity@,
                remote_domain: remote_domain@,
            },
        }
    }
}

impl Selection {
    fn same(&self, other: &Selection) -> (r: bool)
        ensures
            r == (self@ == other@),
    {
        match (self, other) {
            (
                Selection::Repository { identity, repository, remote_domain },
                Selection::Repository { identity: i, repository: r, remote_domain: d },
            ) => *identity == *i && *repository == *r && *remote_domain == *d,
            (
                Selection::Custom { identity, resource_id, remote_domain },
                Selection::Custom { identity: i, resource_id: r, remote_domain: d },
            ) => *identity == *i && *resource_id == *r && *remote_domain == *d,
            (
                Selection::Authenticated { identity, remote_domain },
                Selection::Authenticated { identity: i, remote_domain: d },
            ) => *identity == *i && *remote_domain == *d,
            _ => false,
        }
    }

    /// The line that reports the selection.
    pub open spec fn line(self) -> Seq<char> {
        match self@ {
            SelectionView::Repository { identity, repository, remote_domain } => {
                "Selected identity "@ + identity + ", authorized for repository "@ + repository
                    + " on "@ + remote_domain
            },
            SelectionView::Custom { identity, resource_id, remote_domain } => {
                "Selected identity "@ + identity + ", authorized for resource "@ + resource_id
                    + " on "@ + remote_domain
            },
            SelectionView::Authenticated { identity, remote_domain } => {
                "Selected identity "@ + identity + ", authenticated for "@ + remote_domain
            },
        }
    }

    /// The line that reports the selection.
    pub fn message(&self) -> (r: String)
        ensures
            r@ == self.line(),
    {
        let mut line = "Selected identity ".to_owned();
        match self {
            Selection::Repository { identity, repository, remote_domain } => {
                line.append(identity.as_str());
                line.append(", authorized for repository ");
                line.append(repository.as_str());
                line.append(" on ");
                line.append(remote_domain.as_str());
            },
            Selection::Custom { identity, resource_id, remote_domain } => {
                line.append(identity.as_str());
                line.append(", authorized for resource ");
                line.append(resource_id.as_str());
                line.append(" on ");
                line.append(remote_domain.as_str());
            },
            Selection::Authenticated { identity, remote_domain } => {
                line.append(identity.as_str());
                line.append(", authenticated for ");
                line.append(remote_domain.as_str());
            },
        }
        line
    }
}

/// The selections that were reported last, one of each sort.
///
/// The same identity is selected again on every refresh, so only a change is
/// worth a report.
pub struct LastSelections {
    repository: Option<Selection>,
    custom: Option<Selection>,
    authenticated: Option<Selection>,
}

/// [`LastSelections`] as text.
pub struct LastSelectionsView {
    pub repository: Option<SelectionView>,
    pub custom: Option<SelectionView>,
    pub authenticated: Option<SelectionView>,
}

impl LastSelectionsView {
    /// The last selection of the sort that `selection` is of.
    pub open spec fn last(self, selection: SelectionView) -> Option<SelectionView> {
        match selection {
            SelectionView::Repository { .. } => self.repository,
            SelectionView::Custom { .. } => self.custom,
            SelectionView::Authenticated { .. } => self.authenticated,
        }
    }

    /// With `selection` as the last of its sort.
    pub open spec fn noted(self, selection: SelectionView) -> LastSelectionsView {
        match selection {
            SelectionView::Repository { .. } => LastSelectionsView {
                repository: Some(selection),
                ..self
            },
            SelectionView::Custom { .. } => LastSelectionsView { custom: Some(selection), ..self },
            SelectionView::Authenticated { .. } => LastSelectionsView {
                authenticated: Some(selection),
                ..self
            },
        }
    }
}

/// A selection that may be there, as text.
pub open spec fn selection_view(selection: Option<Selection>) -> Option<SelectionView> {
    match selection {
        Some(selection) => Some(selection@),
        None => None,
    }
}

impl View for LastSelections {
    type V = LastSelectionsView;

    closed spec fn view(&self) -> LastSelectionsView {
        LastSelectionsView {
            repository: selection_view(self.repository),
            custom: selection_view(self.custom),
            authenticated: selection_view(self.authenticated),
        }
    }
}

fn replace(last: &mut Option<Selection>, selection: Selection) -> (changed: bool)
    ensures
        changed == (selection_view(*old(last)) != Some(selection@)),
        selection_view(*final(last)) == Some(selection@),
{
    let changed = match last {
        Some(last) => !last.same(&selection),
        None => true,
    };
    if changed {
        *last = Some(selection);
    }
    changed
}

impl LastSelections {
    /// Nothing has been reported.
    pub fn new() -> (r: LastSelections)
        ensures
            r@ == (LastSelectionsView { repository: None, custom: None, authenticated: None }),
    {
        LastSelections { repository: None, custom: None, authenticated: None }
    }

    /// Notes a selection; says whether it is another than the last of its sort,
    /// and so is to be reported.
    pub fn note(&mut self, selection: Selection) -> (changed: bool)
        ensures
            changed == (old(self)@.last(selection@) != Some(selection@)),
            final(self)@ == old(self)@.noted(selection@),
    {
        match &selection {
            Selection::Repository { .. } => replace(&mut self.repository, selection),
            Selection::Custom { .. } => replace(&mut self.custom, selection),
            Selection::Authenticated { .. } => replace(&mut self.authenticated, selection),
        }
    }
}

/// Whether two selections are of one sort.
pub open spec fn same_sort(a: SelectionView, b: SelectionView) -> bool {
    &&& a is Repository <==> b is Repository
    &&& a is Custom <==> b is Custom
}

/// A selection is reported once: noted again, it is not another than the last
/// of its sort, and noting one of another sort does not change that.
pub proof fn repeated_selection_is_not_reported(
    last: LastSelectionsView,
    selection: SelectionView,
    other: SelectionView,
)
    requires
        !same_sort(selection, other),
    ensures
        last.noted(selection).last(selection) == Some(selection),
        last.noted(selection).noted(other).last(selection) == Some(selection),
{
}

/// The line of a selection names the identity, what it was selected for, and the
/// remote.
pub proof fn lines_say_what_was_selected(selection: &Selection, r: String)
    requires
        call_ensures(Selection::message, (selection,), r),
    ensures
        match selection {
            Selection::Repository { identity, repository, remote_domain } => r@
                == "Selected identity "@ + identity@ + ", authorized for repository "@
                + repository@ + " on "@ + remote_domain@,
            Selection::Custom { identity, resource_id, remote_domain } => r@
                == "Selected identity "@ + identity@ + ", authorized for resource "@ + resource_id@
                + " on "@ + remote_domain@,
            Selection::Authenticated { identity, remote_domain } => r@ == "Selected identity "@
                + identity@ + ", authenticated for "@ + remote_domain@,
        },
{
}

/// A selection is reported exactly where it differs in some part from the last of its
/// sort, or there was none. It is then the last of its sort, and the other sorts are
/// left alone.
pub proof fn changes_are_reported(last: &mut LastSelections, selection: Selection, changed: bool)
    requires
        call_ensures(LastSelections::note, (last, selection), changed),
    ensures
        match selection {
            Selection::Repository { identity, repository, remote_domain } => {
                let noted = SelectionView::Repository {
                    identity: identity@,
                    repository: repository@,
                    remote_domain: remote_domain@,
                };
                &&& changed <==> old(last)@.repository != Some(noted)
                &&& final(last)@.repository == Some(noted)
                &&& final(last)@.custom == old(last)@.custom
                &&& final(last)@.authenticated == old(last)@.authenticated
            },
            Selection::Custom { identity, resource_id, remote_domain } => {
                let noted = SelectionView::Custom {
                    identity: identity@,
                    resource_id: resource_id@,
                    remote_domain: remote_domain@,
                };
                &&& changed <==> old(last)@.custom != Some(noted)
                &&& final(last)@.custom == Some(noted)
                &&& final(last)@.repository == old(last)@.repository
                &&& final(last)@.authenticated == old(last)@.authenticated
            },
            Selection::Authenticated { identity, remote_domain } => {
                let noted = SelectionView::Authenticated {
                    identity: identity@,
                    remote_domain: remote_domain@,
                };
                &&& changed <==> old(last)@.authenticated != Some(noted)
                &&& final(last)@.authenticated == Some(noted)
                &&& final(last)@.repository == old(last)@.repository
                &&& final(last)@.custom == old(last)@.custom
            },
        },
{
}

/// At first, nothing has been reported, so every selection is a change.
pub proof fn at_first_everything_is_a_change(first: LastSelections)
    requires
        call_ensures(LastSelections::new, (), first),
    ensures
        first@.repository is None,
        first@.custom is None,
        first@.authenticated is None,
{
}

} // verus!
