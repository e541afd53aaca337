//! The catalog: categories in a fixed order, each with its programs in a
//! fixed order. Nothing is added or removed after loading; only the
//! favourite flag of a program changes.

use vstd::prelude::*;

verus! {

/// A script that can be launched.
#[derive(Clone, Debug, PartialEq, Eq)]
pub struct Program {
    pub name: String,
    /// The path of the script, as handed to the shell.
    pub script: String,
    pub is_favorite: bool,
}

/// What a program is, as plain values.
pub struct ProgramView {
    pub name: Seq<char>,
    pub script: Seq<char>,
    pub is_favorite: bool,
}

impl View for Program {
    type V = ProgramView;

    open spec fn view(&self) -> ProgramView {
        ProgramView { name: self.name@, script: self.script@, is_favorite: self.is_favorite }
    }
}

/// A named group of programs.
#[derive(Clone, Debug, PartialEq, Eq)]
pub struct Category {
    pub name: String,
    pub programs: Vec<Program>,
}

/// What a category is, as plain values.
pub struct CategoryView {
    pub name: Seq<char>,
    pub programs: Seq<ProgramView>,
}

impl View for Category {
    type V = CategoryView;

    open spec fn view(&self) -> CategoryView {
        CategoryView { name: self.name@, programs: self.programs@.map_values(|p: Program| p@) }
    }
}

/// All categories, in the order of their source.
#[derive(Clone, Debug, PartialEq, Eq)]
pub struct Catalog {
    pub categories: Vec<Category>,
}

impl View for Catalog {
    type V = Seq<CategoryView>;

    open spec fn view(&self) -> Seq<CategoryView> {
        self.categories@.map_values(|c: Category| c@)
    }
}

/// Whether the catalog has a program at place `p` of category `c`.
pub open spec fn has_program(catalog: Seq<CategoryView>, c: int, p: int) -> bool {
    0 <= c < catalog.len() && 0 <= p < catalog[c].programs.len()
}

/// The catalog in which the program at place `p` of category `c` has its
/// favourite flag turned over, and nothing else differs. Without such a
/// program the catalog is unchanged.
pub open spec fn with_favorite_toggled(catalog: Seq<CategoryView>, c: int, p: int) -> Seq<
    CategoryView,
> {
    if has_program(catalog, c, p) {
        let old_program = catalog[c].programs[p];
        let new_program = ProgramView { is_favorite: !old_program.is_favorite, ..old_program };
        catalog.update(
            c,
            CategoryView { programs: catalog[c].programs.update(p, new_program), ..catalog[c] },
        )
    } else {
        catalog
    }
}

impl Program {
    /// A program that is not yet a favourite.
    pub fn new(name: String, script: String) -> (r: Program)
        ensures
            r@ == (ProgramView { name: name@, script: script@, is_favorite: false }),
    {
        Program { name, script, is_favorite: false }
    }
}

impl Category {
    pub fn new(name: String, programs: Vec<Program>) -> (r: Category)
        ensures
            r.name == name,
            r.programs == programs,
    {
        Category { name, programs }
    }
}

impl Catalog {
    pub fn new(categories: Vec<Category>) -> (r: Catalog)
        ensures
            r.categories == categories,
    {
        Catalog { categories }
    }

    /// The number of categories.
    pub fn len(&self) -> (n: usize)
        ensures
            n == self@.len(),
    {
        self.categories.len()
    }

    /// The number of programs in category `c`; none where there is no such
    /// category.
    pub fn program_count(&self, c: usize) -> (n: usize)
        ensures
            c < self@.len() ==> n == self@[c as int].programs.len(),
            c >= self@.len() ==> n == 0,
    {
        if c < self.categories.len() {
            self.categories[c].programs.len()
        } else {
            0
        }
    }

    /// The script of the program at place `p` of category `c`, if there is
    /// such a program.
    pub fn script_at(&self, c: usize, p: usize) -> (r: Option<String>)
        ensures
            has_program(self@, c as int, p as int) ==> r.is_some() && r.unwrap()@
                == self@[c as int].programs[p as int].script,
            !has_program(self@, c as int, p as int) ==> r.is_none(),
    {
        if c < self.categories.len() && p < self.categories[c].programs.len() {
            Some(self.categories[c].programs[p].script.clone())
        } else {
            None
        }
    }

    /// Turns the favourite flag of one program over and returns the new
    /// flag. No other program, and no name or script, changes. Without a
    /// program at that place nothing changes and `None` is returned.
    pub fn toggle_favorite(&mut self, c: usize, p: usize) -> (r: Option<bool>)
        ensures
            final(self)@ == with_favorite_toggled(old(self)@, c as int, p as int),
            has_program(old(self)@, c as int, p as int) ==> r == Some(
                !old(self)@[c as int].programs[p as int].is_favorite,
            ),
            !has_program(old(self)@, c as int, p as int) ==> r.is_none(),
    {
        if c < self.categories.len() && p < self.categories[c].programs.len() {
            let flag = !self.categories[c].programs[p].is_favorite;
            self.categories[c].programs[p].is_favorite = flag;
            proof {
                let want = with_favorite_toggled(old(self)@, c as int, p as int);
                assert(self@[c as int].programs =~= want[c as int].programs);
                assert(self@ =~= want);
            }
            Some(flag)
        } else {
            None
        }
    }
}

/// Turning the same flag over twice gives the catalog back.
pub proof fn lemma_toggle_twice(catalog: Seq<CategoryView>, c: int, p: int)
    ensures
        with_favorite_toggled(with_favorite_toggled(catalog, c, p), c, p) == catalog,
{
    if has_program(catalog, c, p) {
        let once = with_favorite_toggled(catalog, c, p);
        let twice = with_favorite_toggled(once, c, p);
        assert(twice[c].programs =~= catalog[c].programs);
        assert(twice =~= catalog);
    }
}

/// Turning a flag over touches one program only: every other program, and
/// the name and script of that one, stay as they were, and so does the shape
/// of the catalog.
pub proof fn lemma_toggle_is_local(catalog: Seq<CategoryView>, c: int, p: int)
    ensures
        with_favorite_toggled(catalog, c, p).len() == catalog.len(),
        forall|i: int|
            0 <= i < catalog.len() ==> {
                &&& (#[trigger] with_favorite_toggled(catalog, c, p)[i]).name == catalog[i].name
                &&& with_favorite_toggled(catalog, c, p)[i].programs.len()
                    == catalog[i].programs.len()
            },
        forall|i: int, j: int|
            has_program(catalog, i, j) ==> {
                let before = catalog[i].programs[j];
                let after = #[trigger] with_favorite_toggled(catalog, c, p)[i].programs[j];
                &&& after.name == before.name
                &&& after.script == before.script
                &&& after.is_favorite == (if i == c && j == p {
                    !before.is_favorite
                } else {
                    before.is_favorite
                })
            },
{
}

} // verus!
