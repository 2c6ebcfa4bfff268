use vstd::prelude::*;
use vstd::string::*;
use crate::api::{Ec3api, Ec3apiView, Endpoint};
use crate::material_db::{
    accounts_for, all_wf, load_category, query_materials, StoreError, WriteReport, SEARCH_LIMIT,
};
use crate::models::{Ec3Category, Ec3Material};
use crate::names::{category_names, is_name_index};
use crate::number::{Number, NumberView};
use crate::sort::{material_order, sort_materials, sorted, stable_sort, ties_with, SortBy};
use crate::text::texts;
use crate::tree::Node;

verus! {

/// The pages of the program.
#[derive(Clone, Copy, Debug, PartialEq, Eq, Structural)]
pub enum Tabs {
    Search,
    List,
    Chart,
    Category,
    Calculate,
}

impl Tabs {
    pub open spec fn spec_name(&self) -> Seq<char> {
        match *self {
            Tabs::Search => "Search"@,
            Tabs::List => "List"@,
            Tabs::Chart => "Chart"@,
            Tabs::Category => "Category"@,
            Tabs::Calculate => "Calculate"@,
        }
    }

    /// The page's title.
    pub fn name(&self) -> (s: &'static str)
        ensures
            s@ == self.spec_name(),
    {
        match self {
            Tabs::Search => "Search",
            Tabs::List => "List",
            Tabs::Chart => "Chart",
            Tabs::Category => "Category",
            Tabs::Calculate => "Calculate",
        }
    }
}

/// The jurisdiction that every fetch of materials is narrowed to.
pub const JURISDICTION: &'static str = "150";

/// What the program holds in memory between two frames.
#[derive(Debug)]
pub struct State {
    pub materials_loaded: bool,
    pub materials: Vec<Ec3Material>,
    pub categories: Option<Node<Ec3Category>>,
    /// The names of the categories of `materials`, ascending, each once.
    pub loaded_categories: Vec<String>,
    pub filter_input: String,
    pub fetch_input: String,
    pub country: String,
    pub sort_by: SortBy,
    pub active_tab: Tabs,
    pub selected_category: String,
    /// Whether materials were asked for and have not arrived.
    pub materials_requested: bool,
    /// Whether the tree of categories was asked for.
    pub categories_requested: bool,
    pub selected: Option<Ec3Material>,
    pub api_key: String,
    pub category_stats: Option<Number>,
}

pub struct StateView {
    pub materials_loaded: bool,
    pub materials: Seq<Ec3Material>,
    pub categories: Option<Node<Ec3Category>>,
    pub loaded_categories: Seq<Seq<char>>,
    pub filter_input: Seq<char>,
    pub fetch_input: Seq<char>,
    pub country: Seq<char>,
    pub sort_by: SortBy,
    pub active_tab: Tabs,
    pub selected_category: Seq<char>,
    pub materials_requested: bool,
    pub categories_requested: bool,
    pub selected: Option<Ec3Material>,
    pub api_key: Seq<char>,
    pub category_stats: Option<NumberView>,
}

impl View for State {
    type V = StateView;

    open spec fn view(&self) -> StateView {
        StateView {
            materials_loaded: self.materials_loaded,
            materials: self.materials@,
            categories: self.categories,
            loaded_categories: texts(self.loaded_categories@),
            filter_input: self.filter_input@,
            fetch_input: self.fetch_input@,
            country: self.country@,
            sort_by: self.sort_by,
            active_tab: self.active_tab,
            selected_category: self.selected_category@,
            materials_requested: self.materials_requested,
            categories_requested: self.categories_requested,
            selected: self.selected,
            api_key: self.api_key@,
            category_stats: match self.category_stats {
                Some(n) => Some(n@),
                None => None,
            },
        }
    }
}

/// Whether a material with this id stands in the list.
pub open spec fn has_id(s: Seq<Ec3Material>, id: Seq<char>) -> bool {
    exists|j: int| 0 <= j < s.len() && s[j].id@ == id
}

/// The materials of `s` without those whose id an earlier one has.
pub open spec fn unique_ids(s: Seq<Ec3Material>) -> Seq<Ec3Material>
    decreases s.len(),
{
    if s.len() == 0 {
        Seq::empty()
    } else {
        let kept = unique_ids(s.drop_last());
        if has_id(kept, s.last().id@) {
            kept
        } else {
            kept.push(s.last())
        }
    }
}

/// Drops each material whose id an earlier one of the list has.
pub fn retain_unique(materials: Vec<Ec3Material>) -> (kept: Vec<Ec3Material>)
    ensures
        kept@ == unique_ids(materials@),
{
    let mut given = materials;
    let ghost all = given@;
    // The list is taken from its end, so it is turned round first.
    let mut turned: Vec<Ec3Material> = Vec::new();
    while given.len() > 0
        invariant
            given@ == all.take(given@.len() as int),
            given@.len() <= all.len(),
            turned@.len() + given@.len() == all.len(),
            forall|k: int| 0 <= k < turned@.len() ==> turned@[k] == all[all.len() - 1 - k],
        decreases given@.len(),
    {
        match given.pop() {
            Some(m) => {
                turned.push(m);
                assert(given@ =~= all.take(given@.len() as int));
            },
            None => {},
        }
    }
    let mut kept: Vec<Ec3Material> = Vec::new();
    assert(all.take(0) =~= Seq::<Ec3Material>::empty());
    while turned.len() > 0
        invariant
            turned@.len() <= all.len(),
            forall|k: int| 0 <= k < turned@.len() ==> turned@[k] == all[all.len() - 1 - k],
            kept@ == unique_ids(all.take(all.len() - turned@.len())),
        decreases turned@.len(),
    {
        let ghost done = all.len() - turned@.len();
        match turned.pop() {
            Some(m) => {
                assert(m == all[done]);
                assert(all.take(done + 1).drop_last() =~= all.take(done));
                let mut found = false;
                let mut j: usize = 0;
                while j < kept.len()
                    invariant
                        j <= kept@.len(),
                        found == exists|k: int| 0 <= k < j && kept@[k].id@ == m.id@,
                    decreases kept@.len() - j,
                {
                    if kept[j].id == m.id {
                        found = true;
                    }
                    j += 1;
                }
                if !found {
                    kept.push(m);
                }
            },
            None => {},
        }
    }
    assert(all.take(all.len() as int) =~= all);
    kept
}

impl State {
    /// The state at the program's start: nothing loaded, the search page
    /// shown, materials ordered by name.
    pub fn new(api_key: String) -> (s: State)
        ensures
            s@ == (StateView {
                materials_loaded: false,
                materials: Seq::empty(),
                categories: None,
                loaded_categories: Seq::empty(),
                filter_input: Seq::empty(),
                fetch_input: Seq::empty(),
                country: Seq::empty(),
                sort_by: SortBy::Name,
                active_tab: Tabs::Search,
                selected_category: Seq::empty(),
                materials_requested: false,
                categories_requested: false,
                selected: None,
                api_key: api_key@,
                category_stats: None,
            }),
    {
        let s = State {
            materials_loaded: false,
            materials: Vec::new(),
            loaded_categories: Vec::new(),
            categories: None,
            filter_input: String::new(),
            fetch_input: String::new(),
            api_key,
            sort_by: SortBy::Name,
            active_tab: Tabs::Search,
            selected_category: String::new(),
            materials_requested: false,
            categories_requested: false,
            country: String::new(),
            selected: None,
            category_stats: None,
        };
        assert(s@.loaded_categories =~= Seq::empty());
        s
    }

    /// Notes that the tree of categories is asked for and hands out the
    /// request to make.
    pub fn load_categories(&mut self) -> (request: Ec3api)
        ensures
            final(self)@ == (StateView { categories_requested: true, ..old(self)@ }),
            request@ == (Ec3apiView {
                endpoint: Endpoint::Categories,
                ..Ec3api::new_view(old(self)@.api_key)
            }),
    {
        self.categories_requested = true;
        let mut request = Ec3api::new(self.api_key.as_str());
        request.endpoint = Endpoint::Categories;
        request
    }

    /// Takes what has arrived of the tree of categories, if anything, and
    /// says whether the tree is still awaited. A tree that is already held
    /// stays.
    pub fn preload_categories(&mut self, received: Option<Node<Ec3Category>>) -> (loading: bool)
        ensures
            old(self)@.categories is Some || !old(self)@.categories_requested ==> !loading
                && final(self)@ == old(self)@,
            old(self)@.categories is None && old(self)@.categories_requested ==> loading
                == received is None && final(self)@ == (StateView {
                categories: received,
                ..old(self)@
            }),
    {
        if self.categories.is_some() || !self.categories_requested {
            return false;
        }
        match received {
            Some(tree) => {
                self.categories = Some(tree);
                false
            },
            None => true,
        }
    }

    /// Puts a list of materials in the place of the one held, with the names
    /// of its categories.
    pub fn accept(&mut self, materials: Vec<Ec3Material>)
        ensures
            final(self)@ == (StateView {
                materials: materials@,
                loaded_categories: final(self)@.loaded_categories,
                materials_loaded: true,
                ..old(self)@
            }),
            final(self)@.materials == materials@,
            is_name_index(final(self)@.loaded_categories, materials@),
    {
        self.loaded_categories = category_names(&materials);
        self.materials = materials;
        self.materials_loaded = true;
    }

    /// Notes that the materials of a category are asked for and hands out
    /// the request to make: the category's materials in the fixed
    /// jurisdiction.
    pub fn fetch_materials(&mut self, category: &str) -> (request: Ec3api)
        ensures
            final(self)@ == (StateView {
                materials_loaded: false,
                materials_requested: true,
                ..old(self)@
            }),
            request@ == crate::jobs::category_request_of(old(self)@.api_key, category@),
    {
        self.materials_loaded = false;
        self.materials_requested = true;
        crate::jobs::category_request(self.api_key.as_str(), category)
    }

    /// Takes what has arrived of the materials asked for, if anything, and
    /// says whether they are still awaited. Of materials that share an id
    /// the first is kept.
    pub fn preload_data(&mut self, received: Option<Vec<Ec3Material>>) -> (loading: bool)
        ensures
            old(self)@.materials_loaded || !old(self)@.materials_requested ==> !loading
                && final(self)@ == old(self)@,
            !old(self)@.materials_loaded && old(self)@.materials_requested && received is None
                ==> loading && final(self)@ == old(self)@,
            !old(self)@.materials_loaded && old(self)@.materials_requested && received is Some
                ==> !loading && final(self)@.materials == unique_ids(received->0@)
                && is_name_index(final(self)@.loaded_categories, final(self)@.materials)
                && final(self)@ == (StateView {
                materials: final(self)@.materials,
                loaded_categories: final(self)@.loaded_categories,
                materials_loaded: true,
                ..old(self)@
            }),
    {
        if self.materials_loaded || !self.materials_requested {
            return false;
        }
        match received {
            Some(materials) => {
                self.accept(retain_unique(materials));
                false
            },
            None => true,
        }
    }

    /// Whether `after` is `before` with a list of materials put in the place
    /// of the one held: the list is marked as loaded, the names of its
    /// categories are listed, and nothing else has changed.
    pub open spec fn shows(before: StateView, after: StateView) -> bool {
        &&& is_name_index(after.loaded_categories, after.materials)
        &&& after == (StateView {
            materials: after.materials,
            loaded_categories: after.loaded_categories,
            materials_loaded: true,
            ..before
        })
    }

    /// Takes the answer of the store to a search or a browse. Materials take
    /// the place of those held; a failure leaves everything as it is and is
    /// handed back.
    pub fn take_answer(&mut self, answer: Result<Vec<Ec3Material>, StoreError>) -> (r: Result<
        (),
        StoreError,
    >)
        ensures
            match answer {
                Ok(materials) => {
                    &&& r is Ok
                    &&& final(self)@.materials == materials@
                    &&& Self::shows(old(self)@, final(self)@)
                },
                Err(e) => r == Err::<(), StoreError>(e) && final(self)@ == old(self)@,
            },
    {
        match answer {
            Ok(materials) => {
                self.accept(materials);
                Ok(())
            },
            Err(e) => Err(e),
        }
    }

    /// Searches the store for `input` and shows what it finds. An empty input
    /// is no search: it succeeds and changes nothing. A failing store changes
    /// nothing either, and its failure is handed back.
    pub fn search_by_name(&mut self, conn: &rusqlite::Connection, input: &str) -> (r: Result<
        (),
        StoreError,
    >)
        ensures
            input@.len() == 0 ==> r is Ok && final(self)@ == old(self)@,
            input@.len() > 0 && r is Ok ==> Self::shows(old(self)@, final(self)@),
            input@.len() > 0 && r is Ok ==> final(self)@.materials.len() <= SEARCH_LIMIT,
            input@.len() > 0 && r is Ok ==> all_wf(final(self)@.materials),
            r matches Err(e) ==> final(self)@ == old(self)@ && (e == StoreError::Statement || e
                == StoreError::Read),
    {
        if input.unicode_len() == 0 {
            return Ok(());
        }
        let answer = query_materials(conn, input);
        self.take_answer(answer)
    }

    /// Searches the store for what the fetch field holds, as `search_by_name`
    /// does for its input.
    pub fn fetch_materials_from_input(&mut self, conn: &rusqlite::Connection) -> (r: Result<
        (),
        StoreError,
    >)
        ensures
            old(self)@.fetch_input.len() == 0 ==> r is Ok && final(self)@ == old(self)@,
            old(self)@.fetch_input.len() > 0 && r is Ok ==> Self::shows(old(self)@, final(self)@),
            old(self)@.fetch_input.len() > 0 && r is Ok ==> final(self)@.materials.len()
                <= SEARCH_LIMIT,
            old(self)@.fetch_input.len() > 0 && r is Ok ==> all_wf(final(self)@.materials),
            r matches Err(e) ==> final(self)@ == old(self)@ && (e == StoreError::Statement || e
                == StoreError::Read),
    {
        let input = self.fetch_input.clone();
        self.search_by_name(conn, input.as_str())
    }

    /// Shows the materials that the store holds of a category and of the
    /// categories directly below it. A failing store changes nothing, and
    /// its failure is handed back.
    pub fn load_by_category(&mut self, conn: &rusqlite::Connection, category: &str) -> (r: Result<
        (),
        StoreError,
    >)
        ensures
            r is Ok ==> Self::shows(old(self)@, final(self)@) && all_wf(final(self)@.materials),
            r matches Err(e) ==> final(self)@ == old(self)@ && (e == StoreError::Statement || e
                == StoreError::Read),
    {
        let answer = load_category(conn, category);
        self.take_answer(answer)
    }

    /// Offers the materials held to the store, under what the fetch field
    /// holds, and says what became of them.
    pub fn save_materials(&self, conn: &rusqlite::Connection) -> (r: Result<
        WriteReport,
        StoreError,
    >)
        ensures
            match r {
                Ok(report) => accounts_for(report, crate::models::material_views(self@.materials)),
                Err(e) => e == StoreError::Statement,
            },
    {
        crate::material_db::write(conn, &self.materials, self.fetch_input.as_str())
    }

    /// Puts the materials held in ascending order under `op` and notes the
    /// criterion. Materials that tie keep their order.
    pub fn sort_by(&mut self, op: SortBy)
        ensures
            final(self)@ == (StateView {
                materials: stable_sort(material_order(op), old(self)@.materials),
                sort_by: op,
                ..old(self)@
            }),
            sorted(material_order(op), final(self)@.materials),
            final(self)@.materials.to_multiset() == old(self)@.materials.to_multiset(),
            forall|k: Ec3Material|
                old(self)@.materials.filter(#[trigger] ties_with(material_order(op), k)) == final(self)@.materials.filter(ties_with(material_order(op), k)),
            sorted(material_order(op), old(self)@.materials) ==> old(self)@.materials == final(self)@.materials,
    {
        sort_materials(&mut self.materials, op);
        self.sort_by = op;
    }
}

} // verus!
