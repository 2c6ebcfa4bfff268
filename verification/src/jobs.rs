use vstd::prelude::*;
use vstd::string::*;
use crate::api::{Ec3api, Ec3apiView};
use crate::material_filter::{
    standard_pragmas, upper_text, FilterView, MaterialFilter, MaterialFilterView,
};
use crate::models::{material_views, Ec3Category, Ec3Material, Ec3MaterialView};
use crate::state::JURISDICTION;
use crate::text::slice_texts;
use crate::tree::{
    backwards, children_of, lemma_visits_children, preorder, preorder_all, push_children, visits,
    Node,
};

verus! {

/// The request for the materials of a category: a new request that carries a
/// search of the category with the standard pragmas, narrowed to the fixed
/// jurisdiction.
pub open spec fn category_request_of(api_key: Seq<char>, query: Seq<char>) -> Ec3apiView {
    Ec3apiView {
        mf: Some(
            MaterialFilterView {
                pragma: standard_pragmas(),
                category: query,
                filter: seq![
                    FilterView {
                        field: "jurisdiction"@,
                        op: upper_text("in"@),
                        arg: seq![JURISDICTION@],
                    },
                ],
            },
        ),
        ..Ec3api::new_view(api_key)
    }
}

/// The request to make for the materials of the category named `query`.
pub fn category_request(api_key: &str, query: &str) -> (request: Ec3api)
    ensures
        request@ == category_request_of(api_key@, query@),
{
    let mut mf = MaterialFilter::of_category(query);
    let mut arg: Vec<&str> = Vec::new();
    arg.push(JURISDICTION);
    assert(slice_texts(arg@) =~= seq![JURISDICTION@]);
    mf.filter("jurisdiction", "in", arg);
    assert(mf@.filter =~= category_request_of(api_key@, query@).mf->0.filter);
    let mut request = Ec3api::new(api_key);
    request.mf = Some(mf);
    request
}

/// Where a failed run of the job went wrong.
#[derive(Clone, Copy, Debug, PartialEq, Eq, Structural)]
pub enum CError {
    /// The service did not hand out what was asked for.
    FromApi,
    /// The store refused the schema.
    FromDb,
}

/// How far a run of the job has come.
#[derive(Clone, Copy, Debug, PartialEq, Eq, Structural)]
pub enum Phase {
    Idle,
    FetchingCategories,
    TraversingCategories,
    Done,
    Failed,
}

/// What happened outside since the job last asked for something.
#[derive(Debug)]
pub enum Event {
    /// The store's schema was created, or could not be.
    Migrated(bool),
    /// The tree of categories arrived, or could not be had.
    Categories(Option<Node<Ec3Category>>),
    /// The materials of the category asked for arrived, or could not be had.
    Materials(Option<Vec<Ec3Material>>),
    /// The batch handed out was written to the store, as far as it took it.
    Written,
}

/// What the job asks its driver to do next.
#[derive(Debug)]
pub enum Action {
    /// Create the store's schema, then report `Migrated`.
    Migrate,
    /// Fetch the tree of categories, then report `Categories`.
    FetchCategories,
    /// Fetch the materials of the category of this name, then report
    /// `Materials`.
    FetchMaterials(String),
    /// Write these materials under the category of this name, then report
    /// `Written`.
    Write(Vec<Ec3Material>, String),
    /// The run is over: tell whoever waits how it went.
    Finish(Option<CError>),
    /// The event does not belong to this point of the run: nothing to do.
    Ignore,
}

pub enum ActionView {
    Migrate,
    FetchCategories,
    FetchMaterials(Seq<char>),
    Write(Seq<Ec3MaterialView>, Seq<char>),
    Finish(Option<CError>),
    Ignore,
}

impl View for Action {
    type V = ActionView;

    open spec fn view(&self) -> ActionView {
        match *self {
            Action::Migrate => ActionView::Migrate,
            Action::FetchCategories => ActionView::FetchCategories,
            Action::FetchMaterials(name) => ActionView::FetchMaterials(name@),
            Action::Write(materials, parent) => ActionView::Write(
                material_views(materials@),
                parent@,
            ),
            Action::Finish(e) => ActionView::Finish(e),
            Action::Ignore => ActionView::Ignore,
        }
    }
}

/// The job that fills the store: it walks the tree of categories, each
/// category before those below it, and has the materials of each fetched and
/// written. It decides; its driver does the fetching and the writing.
#[derive(Debug)]
pub struct Runner {
    pub phase: Phase,
    /// The category whose materials are being fetched.
    pub current: Option<Node<Ec3Category>>,
    /// The trees still to walk, the next one last.
    pub pending: Vec<Node<Ec3Category>>,
    /// The names of the categories whose materials could not be fetched.
    pub failed: Vec<String>,
    pub error: Option<CError>,
}

/// What a runner stands for in contracts.
pub struct RunnerView {
    pub phase: Phase,
    pub current: Option<Node<Ec3Category>>,
    pub pending: Seq<Node<Ec3Category>>,
    pub failed: Seq<Seq<char>>,
    pub error: Option<CError>,
}

impl View for Runner {
    type V = RunnerView;

    open spec fn view(&self) -> RunnerView {
        RunnerView {
            phase: self.phase,
            current: self.current,
            pending: self.pending@,
            failed: crate::text::texts(self.failed@),
            error: self.error,
        }
    }
}

/// The run has failed for the given reason.
pub open spec fn failed_with(r: RunnerView, e: CError) -> (RunnerView, ActionView) {
    (
        RunnerView { phase: Phase::Failed, current: None, error: Some(e), ..r },
        ActionView::Finish(Some(e)),
    )
}

/// Turns to the next tree on the stack: its root becomes the current category
/// and its materials are asked for. With nothing left the run is done.
pub open spec fn advanced(r: RunnerView) -> (RunnerView, ActionView) {
    if r.pending.len() == 0 {
        (RunnerView { phase: Phase::Done, current: None, ..r }, ActionView::Finish(None))
    } else {
        let node = r.pending[r.pending.len() - 1];
        (
            RunnerView {
                phase: Phase::TraversingCategories,
                current: Some(node),
                pending: r.pending.subrange(0, r.pending.len() - 1),
                ..r
            },
            ActionView::FetchMaterials(node.value.name@),
        )
    }
}

/// The step that the job takes on an event.
///
/// Idle, it waits for the schema and then asks for the categories. With the
/// tree in hand it walks the trees below the root. For the current category,
/// materials that arrived are handed on to be written and the categories
/// below it go on top of the stack; materials that could not be had put the
/// category's name on the list of failures and leave out all below it. In
/// both cases the walk goes on with what the stack holds. An event that the
/// phase does not wait for changes nothing.
pub open spec fn stepped(r: RunnerView, event: Event) -> (RunnerView, ActionView) {
    match (r.phase, event) {
        (Phase::Idle, Event::Migrated(true)) => (
            RunnerView { phase: Phase::FetchingCategories, ..r },
            ActionView::FetchCategories,
        ),
        (Phase::Idle, Event::Migrated(false)) => failed_with(r, CError::FromDb),
        (Phase::FetchingCategories, Event::Categories(Some(tree))) => match tree.children {
            Some(children) => advanced(
                RunnerView { pending: backwards(children@), current: None, ..r },
            ),
            None => failed_with(r, CError::FromApi),
        },
        (Phase::FetchingCategories, Event::Categories(None)) => failed_with(r, CError::FromApi),
        (Phase::TraversingCategories, Event::Materials(Some(materials))) => match r.current {
            Some(node) => (
                RunnerView {
                    current: None,
                    pending: r.pending + backwards(children_of(node)),
                    ..r
                },
                ActionView::Write(material_views(materials@), node.value.name@),
            ),
            None => (r, ActionView::Ignore),
        },
        (Phase::TraversingCategories, Event::Materials(None)) => match r.current {
            Some(node) => advanced(
                RunnerView { current: None, failed: r.failed.push(node.value.name@), ..r },
            ),
            None => (r, ActionView::Ignore),
        },
        (Phase::TraversingCategories, Event::Written) => match r.current {
            Some(_) => (r, ActionView::Ignore),
            None => advanced(r),
        },
        _ => (r, ActionView::Ignore),
    }
}

impl Runner {
    /// A job that has not begun. Its driver creates the schema first and
    /// reports `Migrated`.
    pub fn new() -> (r: Runner)
        ensures
            r@ == (RunnerView {
                phase: Phase::Idle,
                current: None,
                pending: Seq::empty(),
                failed: Seq::empty(),
                error: None,
            }),
    {
        let r = Runner {
            phase: Phase::Idle,
            current: None,
            pending: Vec::new(),
            failed: Vec::new(),
            error: None,
        };
        assert(r@.failed =~= Seq::empty());
        r
    }

    /// What a driver does first.
    pub fn begin(&self) -> (a: Action)
        ensures
            a@ == ActionView::Migrate,
    {
        Action::Migrate
    }

    /// Whether the run is over.
    pub fn finished(&self) -> (r: bool)
        ensures
            r == (self@.phase == Phase::Done || self@.phase == Phase::Failed),
    {
        match self.phase {
            Phase::Done => true,
            Phase::Failed => true,
            _ => false,
        }
    }

    fn fail(&mut self, e: CError) -> (a: Action)
        ensures
            (final(self)@, a@) == failed_with(old(self)@, e),
    {
        self.phase = Phase::Failed;
        self.current = None;
        self.error = Some(e);
        Action::Finish(Some(e))
    }

    fn advance(&mut self) -> (a: Action)
        ensures
            (final(self)@, a@) == advanced(old(self)@),
    {
        match self.pending.pop() {
            Some(node) => {
                let name = node.value.name.clone();
                self.phase = Phase::TraversingCategories;
                self.current = Some(node);
                assert(self.pending@ =~= old(self).pending@.subrange(
                    0,
                    old(self).pending@.len() - 1,
                ));
                Action::FetchMaterials(name)
            },
            None => {
                self.phase = Phase::Done;
                self.current = None;
                Action::Finish(None)
            },
        }
    }

    /// Takes an event from the driver and says what to do next.
    pub fn step(&mut self, event: Event) -> (a: Action)
        ensures
            (final(self)@, a@) == stepped(old(self)@, event),
    {
        match self.phase {
            Phase::Idle => match event {
                Event::Migrated(true) => {
                    self.phase = Phase::FetchingCategories;
                    Action::FetchCategories
                },
                Event::Migrated(false) => self.fail(CError::FromDb),
                _ => Action::Ignore,
            },
            Phase::FetchingCategories => match event {
                Event::Categories(Some(tree)) => match tree.children {
                    Some(children) => {
                        let mut stack: Vec<Node<Ec3Category>> = Vec::new();
                        push_children(&mut stack, children);
                        assert(stack@ =~= backwards(children@));
                        self.pending = stack;
                        self.current = None;
                        self.advance()
                    },
                    None => self.fail(CError::FromApi),
                },
                Event::Categories(None) => self.fail(CError::FromApi),
                _ => Action::Ignore,
            },
            Phase::TraversingCategories => match event {
                Event::Materials(Some(materials)) => match self.current.take() {
                    Some(node) => {
                        let name = node.value.name.clone();
                        match node.children {
                            Some(children) => {
                                push_children(&mut self.pending, children);
                            },
                            None => {
                                assert(self.pending@ + backwards(children_of(node))
                                    =~= self.pending@);
                            },
                        }
                        Action::Write(materials, name)
                    },
                    None => Action::Ignore,
                },
                Event::Materials(None) => match self.current.take() {
                    Some(node) => {
                        self.failed.push(node.value.name.clone());
                        assert(self@.failed =~= old(self)@.failed.push(node.value.name@));
                        self.advance()
                    },
                    None => Action::Ignore,
                },
                Event::Written => match &self.current {
                    Some(_) => Action::Ignore,
                    None => self.advance(),
                },
                _ => Action::Ignore,
            },
            _ => Action::Ignore,
        }
    }
}

/// The categories that the walk has before it once it is through with the
/// current one: those below the current category, then what the stack holds.
pub open spec fn ahead(r: RunnerView) -> Seq<Ec3Category> {
    match r.current {
        Some(node) => preorder_all(children_of(node)) + visits(r.pending),
        None => visits(r.pending),
    }
}

/// A tree's walk begins with its root and goes on below it.
pub proof fn lemma_preorder_unfolds(node: Node<Ec3Category>)
    ensures
        preorder(node) == seq![node.value] + preorder_all(children_of(node)),
{
    match node.children {
        Some(c) => {},
        None => {
            assert(seq![node.value] + preorder_all(children_of(node)) =~= seq![node.value]);
        },
    }
}

/// Turning to the next tree asks for the first category that the stack has
/// before it, and leaves the rest of them ahead, in their order.
pub proof fn lemma_advance_takes_first(r: RunnerView)
    requires
        r.pending.len() > 0,
    ensures
        advanced(r).1 == ActionView::FetchMaterials(visits(r.pending)[0].name@),
        advanced(r).0.phase == Phase::TraversingCategories,
        ahead(advanced(r).0) == visits(r.pending).drop_first(),
{
    let node = r.pending[r.pending.len() - 1];
    let below = r.pending.subrange(0, r.pending.len() - 1);
    lemma_preorder_unfolds(node);
    assert(visits(r.pending) == preorder(node) + visits(below));
    assert((seq![node.value] + preorder_all(children_of(node)) + visits(below)).drop_first()
        =~= preorder_all(children_of(node)) + visits(below));
}

/// The walk goes depth first: when the materials of the current category have
/// arrived they are handed on to be written under its name, and the walk has
/// before it exactly what it had, the categories below the current one first.
pub proof fn lemma_success_keeps_course(r: RunnerView, materials: Vec<Ec3Material>)
    requires
        r.phase == Phase::TraversingCategories,
        r.current is Some,
    ensures
        stepped(r, Event::Materials(Some(materials))).1 == ActionView::Write(
            material_views(materials@),
            r.current->0.value.name@,
        ),
        stepped(r, Event::Materials(Some(materials))).0.current is None,
        ahead(stepped(r, Event::Materials(Some(materials))).0) == ahead(r),
        stepped(r, Event::Materials(Some(materials))).0.failed == r.failed,
{
    lemma_visits_children(r.pending, children_of(r.current->0));
}

/// Once a batch is written the walk turns to the first category that it has
/// before it, or is done where none is left.
pub proof fn lemma_written_moves_on(r: RunnerView)
    requires
        r.phase == Phase::TraversingCategories,
        r.current is None,
    ensures
        ahead(r).len() == 0 ==> stepped(r, Event::Written).1 == ActionView::Finish(None)
            && stepped(r, Event::Written).0.phase == Phase::Done,
        ahead(r).len() > 0 ==> stepped(r, Event::Written).1 == ActionView::FetchMaterials(
            ahead(r)[0].name@,
        ) && ahead(stepped(r, Event::Written).0) == ahead(r).drop_first(),
{
    if r.pending.len() > 0 {
        lemma_advance_takes_first(r);
        lemma_preorder_unfolds(r.pending[r.pending.len() - 1]);
    }
}

/// A category whose materials cannot be had is noted, and it alone with all
/// below it is left out: the walk goes on with what the stack held, its
/// siblings included.
pub proof fn lemma_failure_skips_subtree(r: RunnerView)
    requires
        r.phase == Phase::TraversingCategories,
        r.current is Some,
    ensures
        stepped(r, Event::Materials(None)).0.failed == r.failed.push(r.current->0.value.name@),
        r.pending.len() == 0 ==> stepped(r, Event::Materials(None)).1 == ActionView::Finish(None)
            && stepped(r, Event::Materials(None)).0.phase == Phase::Done,
        r.pending.len() > 0 ==> stepped(r, Event::Materials(None)).1
            == ActionView::FetchMaterials(visits(r.pending)[0].name@) && ahead(
            stepped(r, Event::Materials(None)).0,
        ) == visits(r.pending).drop_first(),
{
    let noted = RunnerView { current: None, failed: r.failed.push(r.current->0.value.name@), ..r };
    if r.pending.len() > 0 {
        lemma_advance_takes_first(noted);
    }
}

/// With the tree in hand the walk begins at the first category below the root
/// and has the others before it, each category before those below it. A tree
/// without a list of categories below its root fails the run.
pub proof fn lemma_tree_starts_walk(r: RunnerView, tree: Node<Ec3Category>)
    requires
        r.phase == Phase::FetchingCategories,
    ensures
        tree.children is None ==> stepped(r, Event::Categories(Some(tree))).1
            == ActionView::Finish(Some(CError::FromApi)) && stepped(
            r,
            Event::Categories(Some(tree)),
        ).0.phase == Phase::Failed,
        tree.children is Some && children_of(tree).len() == 0 ==> stepped(
            r,
            Event::Categories(Some(tree)),
        ).1 == ActionView::Finish(None),
        tree.children is Some && children_of(tree).len() > 0 ==> stepped(
            r,
            Event::Categories(Some(tree)),
        ).1 == ActionView::FetchMaterials(preorder_all(children_of(tree))[0].name@) && ahead(
            stepped(r, Event::Categories(Some(tree))).0,
        ) == preorder_all(children_of(tree)).drop_first(),
{
    if tree.children is Some && children_of(tree).len() > 0 {
        let begun = RunnerView { pending: backwards(children_of(tree)), current: None, ..r };
        lemma_advance_takes_first(begun);
        lemma_visits_children(Seq::empty(), children_of(tree));
        assert(Seq::<Node<Ec3Category>>::empty() + backwards(children_of(tree)) =~= backwards(
            children_of(tree),
        ));
        assert(preorder_all(children_of(tree)) + visits(Seq::<Node<Ec3Category>>::empty())
            =~= preorder_all(children_of(tree)));
    }
}

} // verus!
