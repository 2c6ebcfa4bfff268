use vstd::prelude::*;
use vstd::string::*;
use crate::text::{join_texts, joined, joined_with, slice_texts, texts};

verus! {

/// The upper-case form that `str::to_uppercase` gives for a text.
pub uninterp spec fn upper_text(s: Seq<char>) -> Seq<char>;

/// `str::to_uppercase`: the text with each character replaced by its
/// upper-case form, which the contract names.
#[verifier::external_body]
fn to_upper(s: &str) -> (r: String)
    ensures
        r@ == upper_text(s@),
{
    s.to_uppercase()
}

/// A directive to the service that evaluates the filter.
#[derive(Debug)]
pub struct Pragma {
    pub name: String,
    pub args: Vec<String>,
}

pub struct PragmaView {
    pub name: Seq<char>,
    pub args: Seq<Seq<char>>,
}

impl View for Pragma {
    type V = PragmaView;

    open spec fn view(&self) -> PragmaView {
        PragmaView { name: self.name@, args: texts(self.args@) }
    }
}

/// One clause of a filter: a field, an operator and the operator's arguments.
#[derive(Debug)]
pub struct Filter {
    pub field: String,
    pub op: String,
    pub arg: Vec<String>,
}

pub struct FilterView {
    pub field: Seq<char>,
    pub op: Seq<char>,
    pub arg: Seq<Seq<char>>,
}

impl View for Filter {
    type V = FilterView;

    open spec fn view(&self) -> FilterView {
        FilterView { field: self.field@, op: self.op@, arg: texts(self.arg@) }
    }
}

impl Filter {
    /// A clause on `field`. The operator is kept in upper case.
    pub fn new(field: &str, op: &str, arg: Vec<&str>) -> (f: Filter)
        ensures
            f@ == (FilterView { field: field@, op: upper_text(op@), arg: slice_texts(arg@) }),
    {
        let mut owned: Vec<String> = Vec::new();
        let mut i: usize = 0;
        while i < arg.len()
            invariant
                i <= arg@.len(),
                owned@.len() == i,
                forall|j: int| 0 <= j < i ==> owned@[j]@ == arg@[j]@,
            decreases arg@.len() - i,
        {
            owned.push(String::from_str(arg[i]));
            i += 1;
        }
        assert(texts(owned@) =~= slice_texts(arg@));
        Filter { field: String::from_str(field), op: to_upper(op), arg: owned }
    }
}

/// A search for the materials of one category, narrowed by clauses.
#[derive(Debug)]
pub struct MaterialFilter {
    pub pragma: Vec<Pragma>,
    pub category: String,
    pub filter: Vec<Filter>,
}

pub struct MaterialFilterView {
    pub pragma: Seq<PragmaView>,
    pub category: Seq<char>,
    pub filter: Seq<FilterView>,
}

impl View for MaterialFilter {
    type V = MaterialFilterView;

    open spec fn view(&self) -> MaterialFilterView {
        MaterialFilterView {
            pragma: Seq::new(self.pragma@.len(), |i: int| self.pragma@[i]@),
            category: self.category@,
            filter: Seq::new(self.filter@.len(), |i: int| self.filter@[i]@),
        }
    }
}

/// The two pragmas that every search carries.
pub open spec fn standard_pragmas() -> Seq<PragmaView> {
    seq![
        PragmaView { name: "eMF"@, args: seq!["2.0/1"@] },
        PragmaView { name: "lcia"@, args: seq!["EF 3.0"@] },
    ]
}

impl MaterialFilter {
    pub fn get_category(&self) -> (c: String)
        ensures
            c@ == self@.category,
    {
        self.category.clone()
    }

    /// A search of `category` with the standard pragmas and no clause yet.
    pub fn of_category(category: &str) -> (mf: MaterialFilter)
        ensures
            mf@ == (MaterialFilterView {
                pragma: standard_pragmas(),
                category: category@,
                filter: Seq::empty(),
            }),
    {
        let mut emf_args: Vec<String> = Vec::new();
        emf_args.push(String::from_str("2.0/1"));
        let mut lcia_args: Vec<String> = Vec::new();
        lcia_args.push(String::from_str("EF 3.0"));
        let mut pragma: Vec<Pragma> = Vec::new();
        pragma.push(Pragma { name: String::from_str("eMF"), args: emf_args });
        pragma.push(Pragma { name: String::from_str("lcia"), args: lcia_args });
        let mf = MaterialFilter {
            category: String::from_str(category),
            pragma,
            filter: Vec::new(),
        };
        proof {
            assert(mf.pragma@[0]@.args =~= seq!["2.0/1"@]);
            assert(mf.pragma@[1]@.args =~= seq!["EF 3.0"@]);
            assert(mf@.pragma =~= standard_pragmas());
            assert(mf@.filter =~= Seq::empty());
        }
        mf
    }

    /// Adds a clause behind those already there.
    pub fn filter(&mut self, field: &str, op: &str, arg: Vec<&str>)
        ensures
            final(self)@.pragma == old(self)@.pragma,
            final(self)@.category == old(self)@.category,
            final(self)@.filter == old(self)@.filter.push(
                FilterView { field: field@, op: upper_text(op@), arg: slice_texts(arg@) },
            ),
    {
        let filter = Filter::new(field, op, arg);
        self.filter.push(filter);
        proof {
            assert(final(self)@.filter =~= old(self)@.filter.push(
                FilterView { field: field@, op: upper_text(op@), arg: slice_texts(arg@) },
            ));
            assert(final(self)@.pragma =~= old(self)@.pragma);
        }
    }
}

/// Each text between double quotes.
pub open spec fn quoted(args: Seq<Seq<char>>) -> Seq<Seq<char>> {
    Seq::new(args.len(), |i: int| "\""@ + args[i] + "\""@)
}

/// One clause as the service reads it: on a line of its own, behind one space,
/// the field, a colon, the operator and in brackets its arguments, each in
/// quotes, with commas between them.
pub open spec fn clause_text(f: FilterView) -> Seq<char> {
    "\n "@ + f.field + ": "@ + f.op + "("@ + joined_with(quoted(f.arg), ", "@) + ")"@
}

/// One pragma as the service reads it: the name and in brackets, within one
/// pair of quotes, its arguments with commas between them.
pub open spec fn pragma_text(p: PragmaView) -> Seq<char> {
    p.name + "("@ + "\""@ + joined_with(p.args, ", "@) + "\""@ + ")"@
}

/// The whole search as the service reads it: the category, the clauses with
/// `AND` between them, and on the last line the pragmas with commas between
/// them.
pub open spec fn filter_text(mf: MaterialFilterView) -> Seq<char> {
    "!EC3 search(\""@ + mf.category + "\") WHERE"@ + joined_with(
        Seq::new(mf.filter.len(), |i: int| clause_text(mf.filter[i])),
        " AND"@,
    ) + "\n!pragma "@ + joined_with(
        Seq::new(mf.pragma.len(), |i: int| pragma_text(mf.pragma[i])),
        ", "@,
    )
}

fn quote_all(args: &Vec<String>) -> (r: Vec<String>)
    ensures
        texts(r@) == quoted(texts(args@)),
{
    let mut r: Vec<String> = Vec::new();
    let mut i: usize = 0;
    while i < args.len()
        invariant
            i <= args@.len(),
            r@.len() == i,
            forall|j: int| 0 <= j < i ==> r@[j]@ == "\""@ + args@[j]@ + "\""@,
        decreases args@.len() - i,
    {
        let mut q = joined("\"", args[i].as_str());
        q.append("\"");
        r.push(q);
        i += 1;
    }
    assert(texts(r@) =~= quoted(texts(args@)));
    r
}

fn clause_string(f: &Filter) -> (r: String)
    ensures
        r@ == clause_text(f@),
{
    let mut r = joined("\n ", f.field.as_str());
    r.append(": ");
    r.append(f.op.as_str());
    r.append("(");
    let args = quote_all(&f.arg);
    let list = join_texts(&args, ", ");
    r.append(list.as_str());
    r.append(")");
    r
}

fn pragma_string(p: &Pragma) -> (r: String)
    ensures
        r@ == pragma_text(p@),
{
    let mut r = joined(p.name.as_str(), "(");
    r.append("\"");
    let list = join_texts(&p.args, ", ");
    r.append(list.as_str());
    r.append("\"");
    r.append(")");
    r
}

/// Writes the search in the service's query language.
pub fn convert(mf: &MaterialFilter) -> (r: String)
    ensures
        r@ == filter_text(mf@),
{
    let mut clauses: Vec<String> = Vec::new();
    let mut i: usize = 0;
    while i < mf.filter.len()
        invariant
            i <= mf.filter@.len(),
            clauses@.len() == i,
            forall|j: int| 0 <= j < i ==> clauses@[j]@ == clause_text(mf.filter@[j]@),
        decreases mf.filter@.len() - i,
    {
        clauses.push(clause_string(&mf.filter[i]));
        i += 1;
    }
    let mut pragmas: Vec<String> = Vec::new();
    let mut k: usize = 0;
    while k < mf.pragma.len()
        invariant
            k <= mf.pragma@.len(),
            pragmas@.len() == k,
            forall|j: int| 0 <= j < k ==> pragmas@[j]@ == pragma_text(mf.pragma@[j]@),
        decreases mf.pragma@.len() - k,
    {
        pragmas.push(pragma_string(&mf.pragma[k]));
        k += 1;
    }
    proof {
        assert(texts(clauses@) =~= Seq::new(
            mf@.filter.len(),
            |i: int| clause_text(mf@.filter[i]),
        ));
        assert(texts(pragmas@) =~= Seq::new(
            mf@.pragma.len(),
            |i: int| pragma_text(mf@.pragma[i]),
        ));
    }
    let mut r = joined("!EC3 search(\"", mf.category.as_str());
    r.append("\") WHERE");
    r.append(join_texts(&clauses, " AND").as_str());
    r.append("\n!pragma ");
    r.append(join_texts(&pragmas, ", ").as_str());
    r
}

} // verus!
