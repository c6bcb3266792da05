//! Categories: two levels at most (a top-level category and its
//! sub-categories), the tree that the API lists, the rows that the pages
//! show, and the rules for creating and changing a category.
use vstd::prelude::*;
use vstd::set_lib::{lemma_int_range, lemma_len_subset, set_int_range};

use crate::status::{api_check_answers, bad_request, form_check_answers, ApiError, HttpStatus};
use crate::text::{
    char_count, check_two_names, decimal_i64, parse_i64, copy_opt, eq_ignore_ascii_case, eq_ignore_ascii_case_chars, opt_view, owned,
    same_opt_text, same_text, text_or, or_copy, trim_chars, trim_str, two_names_error, law_text_problem_of_trimmed,
    law_trim_idempotent, text_problem, TextProblem,
};

pub mod api;
pub mod filters;
pub mod web;

verus! {

/// A stored category.
#[derive(Clone, Debug)]
pub struct CategoryResponseDto {
    pub id: i64,
    pub name: String,
    pub name_ar: String,
    /// The parent category; `None` for a top-level category.
    pub parent_id: Option<i64>,
    pub notes: Option<String>,
    /// Creation time, in microseconds since the Unix epoch.
    pub created_at: i64,
    /// Last change, in microseconds since the Unix epoch.
    pub updated_at: i64,
}

/// A category with its sub-categories, as the API lists them.
#[derive(Debug)]
pub struct CategoryTreeDto {
    pub id: i64,
    pub name: String,
    pub name_ar: String,
    pub notes: Option<String>,
    pub created_at: i64,
    pub updated_at: i64,
    pub children: Vec<CategoryTreeDto>,
}

/// No two categories share an id (the table's key).
pub open spec fn unique_ids(cats: Seq<CategoryResponseDto>) -> bool {
    forall|a: int, b: int|
        0 <= a < cats.len() && 0 <= b < cats.len() && #[trigger] cats[a].id == #[trigger] cats[b].id
            ==> a == b
}

/// The positions `0..n`.
pub open spec fn positions(n: nat) -> Seq<int> {
    Seq::new(n, |i: int| i)
}

/// The positions of the top-level categories, in list order.
pub open spec fn root_indices(cats: Seq<CategoryResponseDto>) -> Seq<int> {
    positions(cats.len()).filter(|i: int| cats[i].parent_id is None)
}

/// The positions of the direct sub-categories of category `id`, in list order.
pub open spec fn child_indices(cats: Seq<CategoryResponseDto>, id: i64) -> Seq<int> {
    positions(cats.len()).filter(|i: int| cats[i].parent_id == Some(id))
}

/// `t` carries the fields of `c`.
pub open spec fn node_matches(t: CategoryTreeDto, c: CategoryResponseDto) -> bool {
    &&& t.id == c.id
    &&& t.name == c.name
    &&& t.name_ar == c.name_ar
    &&& t.notes == c.notes
    &&& t.created_at == c.created_at
    &&& t.updated_at == c.updated_at
}

/// `t` is the tree of the category at position `i`: its fields, and one
/// child for each direct sub-category, in list order, each the tree of
/// that sub-category.
pub open spec fn represents(cats: Seq<CategoryResponseDto>, i: int, t: CategoryTreeDto) -> bool
    decreases t,
{
    let kids = child_indices(cats, cats[i].id);
    &&& 0 <= i < cats.len()
    &&& node_matches(t, cats[i])
    &&& t.children@.len() == kids.len()
    &&& forall|k: int|
        0 <= k < kids.len() ==> {
            decreases_to!(t => t.children@[k]) && represents(cats, kids[k], #[trigger] t.children@[k])
        }
}

/// `path` is a chain of categories from a top-level one down, each the
/// parent of the next, with no position twice.
pub open spec fn descent(cats: Seq<CategoryResponseDto>, path: Seq<int>) -> bool {
    &&& path.len() >= 1
    &&& path.no_duplicates()
    &&& forall|k: int| 0 <= k < path.len() ==> 0 <= #[trigger] path[k] < cats.len()
    &&& cats[path[0]].parent_id is None
    &&& forall|k: int|
        0 < k < path.len() ==> cats[#[trigger] path[k]].parent_id == Some(cats[path[k - 1]].id)
}

/// A chain without repeats over `n` positions is at most `n` long.
proof fn lemma_descent_len(cats: Seq<CategoryResponseDto>, path: Seq<int>)
    requires
        path.no_duplicates(),
        forall|k: int| 0 <= k < path.len() ==> 0 <= #[trigger] path[k] < cats.len(),
    ensures
        path.len() <= cats.len(),
{
    path.unique_seq_to_set();
    lemma_int_range(0, cats.len() as int);
    assert forall|x: int| path.to_set().contains(x) implies set_int_range(0, cats.len() as int).contains(x) by {
        let k = choose|k: int| 0 <= k < path.len() && path[k] == x;
        assert(0 <= path[k] < cats.len());
    }
    lemma_len_subset(path.to_set(), set_int_range(0, cats.len() as int));
}

/// A direct sub-category of the last category of a chain is not on it, so
/// the chain extends by it.
proof fn lemma_descent_extends(cats: Seq<CategoryResponseDto>, path: Seq<int>, j: int)
    requires
        unique_ids(cats),
        descent(cats, path),
        0 <= j < cats.len(),
        cats[j].parent_id == Some(cats[path.last()].id),
    ensures
        descent(cats, path.push(j)),
        path.len() < cats.len(),
{
    let l = path.len();
    if path.contains(j) {
        let m = choose|m: int| 0 <= m < l && path[m] == j;
        if m == 0 {
            assert(cats[path[0]].parent_id is None);
        } else {
            assert(cats[path[m]].parent_id == Some(cats[path[m - 1]].id));
            assert(cats[path[m - 1]].id == cats[path[l - 1]].id);
            assert(0 <= path[m - 1] < cats.len());
            assert(0 <= path[l - 1] < cats.len());
            assert(path[m - 1] == path[l - 1]);
        }
    }
    let p2 = path.push(j);
    assert(p2.no_duplicates()) by {
        assert forall|a: int, b: int| 0 <= a < p2.len() && 0 <= b < p2.len() && a != b implies p2[a] != p2[b] by {
            if a < l && b < l {
            } else if a == l {
                assert(p2[b] == path[b]);
                assert(path.contains(path[b]));
            } else {
                assert(p2[a] == path[a]);
                assert(path.contains(path[a]));
            }
        }
    }
    assert forall|k: int| 0 < k < p2.len() implies cats[#[trigger] p2[k]].parent_id == Some(cats[p2[k - 1]].id) by {
        if k < l {
            assert(p2[k] == path[k]);
        }
    }
    lemma_descent_len(cats, p2);
}

impl CategoryTreeDto {
    /// A leaf node with the fields of `cat`.
    fn from_flat(cat: &CategoryResponseDto) -> (r: CategoryTreeDto)
        ensures
            node_matches(r, *cat),
            r.children@.len() == 0,
    {
        CategoryTreeDto {
            id: cat.id,
            name: cat.name.clone(),
            name_ar: cat.name_ar.clone(),
            notes: copy_opt(&cat.notes),
            created_at: cat.created_at,
            updated_at: cat.updated_at,
            children: Vec::new(),
        }
    }

    /// The tree of the category at position `i`, reached down the chain `path`.
    fn build_node(cats: &Vec<CategoryResponseDto>, i: usize, Ghost(path): Ghost<Seq<int>>) -> (r: CategoryTreeDto)
        requires
            unique_ids(cats@),
            descent(cats@, path),
            path.last() == i,
        ensures
            represents(cats@, i as int, r),
        decreases cats@.len() - path.len(),
    {
        proof {
            lemma_descent_len(cats@, path);
        }
        let n = cats.len();
        let id = cats[i].id;
        let mut node = Self::from_flat(&cats[i]);
        let mut children: Vec<CategoryTreeDto> = Vec::new();
        let ghost pred = |x: int| cats@[x].parent_id == Some(id);
        let ghost mut kids: Seq<int> = Seq::empty();
        for j in 0..n
            invariant
                n == cats@.len(),
                unique_ids(cats@),
                descent(cats@, path),
                path.last() == i,
                id == cats@[i as int].id,
                pred == (|x: int| cats@[x].parent_id == Some(id)),
                kids == positions(n as nat).take(j as int).filter(pred),
                children@.len() == kids.len(),
                forall|k: int| 0 <= k < kids.len() ==> represents(cats@, kids[k], #[trigger] children@[k]),
        {
            proof {
                assert(positions(n as nat).take(j + 1) =~= positions(n as nat).take(j as int).push(j as int));
                positions(n as nat).take(j as int).lemma_filter_push(j as int, pred);
            }
            let is_child = match cats[j].parent_id {
                Some(p) => p == id,
                None => false,
            };
            if is_child {
                proof {
                    lemma_descent_extends(cats@, path, j as int);
                }
                let child = Self::build_node(cats, j, Ghost(path.push(j as int)));
                children.push(child);
                proof {
                    kids = kids.push(j as int);
                }
            }
        }
        proof {
            assert(positions(n as nat).take(n as int) =~= positions(n as nat));
        }
        node.children = children;
        node
    }

    /// The categories as a forest: one tree per top-level category, in list
    /// order, each carrying its sub-categories in list order.  The ids must
    /// be unique, as the table's key makes them.
    pub fn build_tree(flat_categories: Vec<CategoryResponseDto>) -> (r: Vec<CategoryTreeDto>)
        requires
            unique_ids(flat_categories@),
        ensures
            r@.len() == root_indices(flat_categories@).len(),
            forall|k: int|
                0 <= k < r@.len() ==> represents(flat_categories@, root_indices(flat_categories@)[k], #[trigger] r@[k]),
            forall|k: int|
                0 <= k < r@.len() ==> {
                    let c = flat_categories@[root_indices(flat_categories@)[k]];
                    &&& (#[trigger] r@[k]).id == c.id
                    &&& r@[k].name == c.name
                    &&& r@[k].name_ar == c.name_ar
                    &&& r@[k].notes == c.notes
                    &&& r@[k].created_at == c.created_at
                    &&& r@[k].updated_at == c.updated_at
                    &&& c.parent_id is None
                },
    {
        let n = flat_categories.len();
        let mut roots: Vec<CategoryTreeDto> = Vec::new();
        let ghost pred = |x: int| flat_categories@[x].parent_id is None;
        let ghost mut found: Seq<int> = Seq::empty();
        for j in 0..n
            invariant
                n == flat_categories@.len(),
                unique_ids(flat_categories@),
                pred == (|x: int| flat_categories@[x].parent_id is None),
                found == positions(n as nat).take(j as int).filter(pred),
                roots@.len() == found.len(),
                forall|k: int| 0 <= k < found.len() ==> represents(flat_categories@, found[k], #[trigger] roots@[k]),
        {
            proof {
                assert(positions(n as nat).take(j + 1) =~= positions(n as nat).take(j as int).push(j as int));
                positions(n as nat).take(j as int).lemma_filter_push(j as int, pred);
            }
            if flat_categories[j].parent_id.is_none() {
                let ghost path = seq![j as int];
                proof {
                    assert(path.no_duplicates());
                }
                let t = Self::build_node(&flat_categories, j, Ghost(path));
                roots.push(t);
                proof {
                    found = found.push(j as int);
                }
            }
        }
        proof {
            assert(positions(n as nat).take(n as int) =~= positions(n as nat));
        }
        roots
    }
}

} // verus!

verus! {

/// The longest category name, in characters, once trimmed.
pub const CATEGORY_NAME_MAX: usize = 50;

/// Some category other than `current` has this English name, trimmed and
/// compared without regard to ASCII case.
pub open spec fn english_name_in_use(cats: Seq<CategoryResponseDto>, current: Option<i64>, name: Seq<char>) -> bool {
    exists|i: int|
        #![trigger cats[i]]
        0 <= i < cats.len() && Some(cats[i].id) != current && eq_ignore_ascii_case_chars(
            trim_chars(cats[i].name@),
            name,
        )
}

/// Some category other than `current` has this Arabic name once trimmed.
pub open spec fn arabic_name_in_use(cats: Seq<CategoryResponseDto>, current: Option<i64>, name: Seq<char>) -> bool {
    exists|i: int|
        #![trigger cats[i]]
        0 <= i < cats.len() && Some(cats[i].id) != current && trim_chars(cats[i].name_ar@) == name
}

/// The position of the first category with this id, searching from `start`.
pub open spec fn find_id_from(cats: Seq<CategoryResponseDto>, id: i64, start: int) -> Option<int>
    decreases cats.len() - start,
{
    if start < 0 || start >= cats.len() {
        None
    } else if cats[start].id == id {
        Some(start)
    } else {
        find_id_from(cats, id, start + 1)
    }
}

/// A search by id finds a category with that id, at or after the start.
pub proof fn lemma_find_id_from(cats: Seq<CategoryResponseDto>, id: i64, start: int)
    ensures
        find_id_from(cats, id, start) matches Some(k) ==> start <= k < cats.len() && cats[k].id == id,
    decreases cats.len() - start,
{
    if 0 <= start < cats.len() && cats[start].id != id {
        lemma_find_id_from(cats, id, start + 1);
    }
}

/// The position of the first category with this id.
pub open spec fn find_id(cats: Seq<CategoryResponseDto>, id: i64) -> Option<int> {
    find_id_from(cats, id, 0)
}

/// Some category has `id` as its parent.
pub open spec fn has_children(cats: Seq<CategoryResponseDto>, id: i64) -> bool {
    exists|i: int| #![trigger cats[i]] 0 <= i < cats.len() && cats[i].parent_id == Some(id)
}

/// What is wrong with the chosen parent of a category, judged on the list of
/// categories (`None`: nothing).
pub open spec fn parent_form_error(
    parent_id: Option<i64>,
    current: Option<i64>,
    cats: Seq<CategoryResponseDto>,
) -> Option<Seq<char>> {
    match parent_id {
        None => None,
        Some(pid) => if Some(pid) == current {
            Some("لا يمكن تعيين الفئة كأب لنفسها"@)
        } else {
            match find_id(cats, pid) {
                None => Some("معرف الفئة الرئيسية (Parent ID) غير موجود"@),
                Some(p) => if cats[p].parent_id is Some {
                    Some("لا يمكن اختيار فئة فرعية لتكون أب، يجب أن تكون الفئة المختارة جذعية"@)
                } else {
                    match current {
                        None => None,
                        Some(cid) => match find_id(cats, cid) {
                            Some(c) => if cats[c].parent_id is None && has_children(cats, cid) {
                                Some("لا يمكن تحويل هذه الفئة إلى فئة فرعية لأن لديها فئات فرعية تابعة لها"@)
                            } else {
                                None
                            },
                            None => None,
                        },
                    }
                },
            }
        },
    }
}

/// The refusal message of the category web forms, if any: the names first,
/// then their uniqueness among the other categories, then the parent.
pub open spec fn category_form_error(
    name: Seq<char>,
    name_ar: Seq<char>,
    parent_id: Option<i64>,
    current: Option<i64>,
    cats: Seq<CategoryResponseDto>,
) -> Option<Seq<char>> {
    let names = two_names_error(
        name,
        name_ar,
        CATEGORY_NAME_MAX as nat,
        (
            "الاسم بالإنجليزية مطلوب ولا يمكن تركه فارغاً"@,
            "اسم الفئة بالإنجليزية يجب ألا يتجاوز 50 حرفاً"@,
            "الاسم بالعربية مطلوب ولا يمكن تركه فارغاً"@,
            "اسم الفئة بالعربية يجب ألا يتجاوز 50 حرفاً"@,
        ),
    );
    if names is Some {
        names
    } else if english_name_in_use(cats, current, trim_chars(name)) {
        Some("اسم الفئة بالإنجليزية موجود بالفعل"@)
    } else if arabic_name_in_use(cats, current, trim_chars(name_ar)) {
        Some("اسم الفئة بالعربية موجود بالفعل"@)
    } else {
        parent_form_error(parent_id, current, cats)
    }
}

pub(crate) fn other_than(id: i64, current: Option<i64>) -> (r: bool)
    ensures
        r == (Some(id) != current),
{
    match current {
        Some(c) => c != id,
        None => true,
    }
}

fn english_name_taken(cats: &[CategoryResponseDto], current: Option<i64>, name: &str) -> (r: bool)
    ensures
        r == english_name_in_use(cats@, current, name@),
{
    let n = cats.len();
    let mut i: usize = 0;
    while i < n
        invariant
            n == cats@.len(),
            i <= n,
            forall|j: int|
                #![trigger cats@[j]]
                0 <= j < i ==> !(Some(cats@[j].id) != current && eq_ignore_ascii_case_chars(
                    trim_chars(cats@[j].name@),
                    name@,
                )),
        decreases n - i,
    {
        if other_than(cats[i].id, current) && eq_ignore_ascii_case(trim_str(cats[i].name.as_str()), name) {
            assert(cats@[i as int] == cats[i as int]);
            return true;
        }
        i = i + 1;
    }
    false
}

fn arabic_name_taken(cats: &[CategoryResponseDto], current: Option<i64>, name: &str) -> (r: bool)
    ensures
        r == arabic_name_in_use(cats@, current, name@),
{
    let n = cats.len();
    let mut i: usize = 0;
    while i < n
        invariant
            n == cats@.len(),
            i <= n,
            forall|j: int|
                #![trigger cats@[j]]
                0 <= j < i ==> !(Some(cats@[j].id) != current && trim_chars(cats@[j].name_ar@) == name@),
        decreases n - i,
    {
        if other_than(cats[i].id, current) && same_text(trim_str(cats[i].name_ar.as_str()), name) {
            assert(cats@[i as int] == cats[i as int]);
            return true;
        }
        i = i + 1;
    }
    false
}

/// The position of the first category with this id.
pub(crate) fn find_by_id(cats: &[CategoryResponseDto], id: i64) -> (r: Option<usize>)
    ensures
        match r {
            Some(k) => find_id(cats@, id) == Some(k as int) && k < cats@.len() && cats@[k as int].id == id,
            None => find_id(cats@, id) is None,
        },
{
    proof {
        lemma_find_id_from(cats@, id, 0);
    }
    let n = cats.len();
    let mut i: usize = 0;
    while i < n
        invariant
            n == cats@.len(),
            i <= n,
            find_id(cats@, id) == find_id_from(cats@, id, i as int),
        decreases n - i,
    {
        if cats[i].id == id {
            return Some(i);
        }
        i = i + 1;
    }
    None
}

/// Whether some category has `id` as its parent.
fn any_child_of(cats: &[CategoryResponseDto], id: i64) -> (r: bool)
    ensures
        r == has_children(cats@, id),
{
    let n = cats.len();
    let mut i: usize = 0;
    while i < n
        invariant
            n == cats@.len(),
            i <= n,
            forall|j: int| #![trigger cats@[j]] 0 <= j < i ==> cats@[j].parent_id != Some(id),
        decreases n - i,
    {
        let hit = match cats[i].parent_id {
            Some(p) => p == id,
            None => false,
        };
        if hit {
            assert(cats@[i as int] == cats[i as int]);
            return true;
        }
        i = i + 1;
    }
    false
}

fn parent_check(parent_id: Option<i64>, current: Option<i64>, cats: &[CategoryResponseDto]) -> (r: Option<String>)
    ensures
        opt_view(r) == parent_form_error(parent_id, current, cats@),
{
    match parent_id {
        None => None,
        Some(pid) => {
            let is_self = match current {
                Some(c) => c == pid,
                None => false,
            };
            if is_self {
                return Some(owned("لا يمكن تعيين الفئة كأب لنفسها"));
            }
            match find_by_id(cats, pid) {
                None => Some(owned("معرف الفئة الرئيسية (Parent ID) غير موجود")),
                Some(p) => {
                    if cats[p].parent_id.is_some() {
                        return Some(owned("لا يمكن اختيار فئة فرعية لتكون أب، يجب أن تكون الفئة المختارة جذعية"));
                    }
                    match current {
                        None => None,
                        Some(cid) => match find_by_id(cats, cid) {
                            Some(c) => {
                                if cats[c].parent_id.is_none() && any_child_of(cats, cid) {
                                    Some(owned("لا يمكن تحويل هذه الفئة إلى فئة فرعية لأن لديها فئات فرعية تابعة لها"))
                                } else {
                                    None
                                }
                            },
                            None => None,
                        },
                    }
                },
            }
        },
    }
}

/// The values of a category form, as checked.
pub struct MergedCategoryFormData<'a> {
    pub name: &'a str,
    pub name_ar: &'a str,
    pub parent_id: Option<i64>,
}

impl<'a> MergedCategoryFormData<'a> {
    /// Checks the names (required, at most 50 characters once trimmed),
    /// that no other category has the same English name (ignoring ASCII
    /// case) or Arabic name, and that the parent exists, is top-level, is
    /// not the category itself, and that a top-level category with
    /// sub-categories does not become a sub-category.  `current_category_id`
    /// is the category being changed, `None` for a new one.
    pub fn validate(
        &self,
        current_category_id: Option<i64>,
        existing_categories: &[CategoryResponseDto],
    ) -> (r: Result<(), String>)
        ensures
            form_check_answers(
                r,
                category_form_error(
                    self.name@,
                    self.name_ar@,
                    self.parent_id,
                    current_category_id,
                    existing_categories@,
                ),
            ),
    {
        match check_two_names(
            self.name,
            self.name_ar,
            CATEGORY_NAME_MAX,
            "الاسم بالإنجليزية مطلوب ولا يمكن تركه فارغاً",
            "اسم الفئة بالإنجليزية يجب ألا يتجاوز 50 حرفاً",
            "الاسم بالعربية مطلوب ولا يمكن تركه فارغاً",
            "اسم الفئة بالعربية يجب ألا يتجاوز 50 حرفاً",
        ) {
            Some(m) => {
                return Err(m);
            },
            None => {},
        }
        let trimmed_name = trim_str(self.name);
        let trimmed_name_ar = trim_str(self.name_ar);
        if english_name_taken(existing_categories, current_category_id, trimmed_name) {
            return Err(owned("اسم الفئة بالإنجليزية موجود بالفعل"));
        }
        if arabic_name_taken(existing_categories, current_category_id, trimmed_name_ar) {
            return Err(owned("اسم الفئة بالعربية موجود بالفعل"));
        }
        match parent_check(self.parent_id, current_category_id, existing_categories) {
            Some(m) => Err(m),
            None => Ok(()),
        }
    }
}

/// The web form that creates a category.
#[derive(Debug)]
pub struct CreateCategoryForm {
    pub name: String,
    pub name_ar: String,
    pub parent_id: Option<i64>,
    pub notes: Option<String>,
}

impl CreateCategoryForm {
    /// Checks the form as a new category (`MergedCategoryFormData` with no
    /// current category).
    pub fn validate(&self, existing_categories: &[CategoryResponseDto]) -> (r: Result<(), String>)
        ensures
            form_check_answers(
                r,
                category_form_error(self.name@, self.name_ar@, self.parent_id, None, existing_categories@),
            ),
    {
        let merged = MergedCategoryFormData {
            name: self.name.as_str(),
            name_ar: self.name_ar.as_str(),
            parent_id: self.parent_id,
        };
        merged.validate(None, existing_categories)
    }
}

/// The web form that updates a category.
#[derive(Debug)]
pub struct UpdateCategoryForm {
    pub name: String,
    pub name_ar: String,
    pub parent_id: Option<i64>,
    pub notes: Option<String>,
}

impl UpdateCategoryForm {
    /// Checks the form as a change of category `current_category_id`.
    pub fn validate(
        &self,
        current_category_id: i64,
        existing_categories: &[CategoryResponseDto],
    ) -> (r: Result<(), String>)
        ensures
            form_check_answers(
                r,
                category_form_error(
                    self.name@,
                    self.name_ar@,
                    self.parent_id,
                    Some(current_category_id),
                    existing_categories@,
                ),
            ),
    {
        let merged = MergedCategoryFormData {
            name: self.name.as_str(),
            name_ar: self.name_ar.as_str(),
            parent_id: self.parent_id,
        };
        merged.validate(Some(current_category_id), existing_categories)
    }
}

} // verus!

verus! {

/// What the database says about a category request: the answers of the
/// checks that the API asks the `categories` table.
#[derive(Clone, Copy, Debug)]
pub struct CategoryLookups {
    /// Another category has the same English name, trimmed, ignoring case.
    pub name_exists: bool,
    /// Another category has the same trimmed Arabic name.
    pub name_ar_exists: bool,
    /// The chosen parent exists and is a top-level category.
    pub parent_is_root: bool,
    /// The category being changed has sub-categories.
    pub has_children: bool,
}

/// The refusal message of the API for a new category, if any.
pub open spec fn category_create_api_error(
    name: Seq<char>,
    name_ar: Seq<char>,
    parent_id: Option<i64>,
    lookups: CategoryLookups,
) -> Option<Seq<char>> {
    let names = two_names_error(
        name,
        name_ar,
        CATEGORY_NAME_MAX as nat,
        (
            "English name is required and cannot be empty"@,
            "English name must not exceed 50 characters"@,
            "Arabic name is required and cannot be empty"@,
            "Arabic name must not exceed 50 characters"@,
        ),
    );
    if names is Some {
        names
    } else if lookups.name_exists {
        Some("English category name already exists"@)
    } else if lookups.name_ar_exists {
        Some("Arabic category name already exists"@)
    } else if parent_id is Some && !lookups.parent_is_root {
        Some("Parent ID does not exist, or is not a top-level category"@)
    } else {
        None
    }
}

/// The refusal message of the API for a changed category, if any.
pub open spec fn category_update_api_error(
    name: Seq<char>,
    name_ar: Seq<char>,
    parent_id: Option<i64>,
    current: i64,
    old_parent_id: Option<i64>,
    lookups: CategoryLookups,
) -> Option<Seq<char>> {
    let names = two_names_error(
        name,
        name_ar,
        CATEGORY_NAME_MAX as nat,
        (
            "الاسم بالإنجليزية مطلوب ولا يمكن تركه فارغاً"@,
            "اسم الفئة بالإنجليزية يجب ألا يتجاوز 50 حرفاً"@,
            "الاسم بالعربية مطلوب ولا يمكن تركه فارغاً"@,
            "اسم الفئة بالعربية يجب ألا يتجاوز 50 حرفاً"@,
        ),
    );
    if names is Some {
        names
    } else if lookups.name_exists {
        Some("اسم الفئة بالإنجليزية موجود بالفعل"@)
    } else if lookups.name_ar_exists {
        Some("اسم الفئة بالعربية موجود بالفعل"@)
    } else {
        match parent_id {
            None => None,
            Some(pid) => if pid == current {
                Some("لا يمكن تعيين الفئة كأب لنفسها"@)
            } else if !lookups.parent_is_root {
                Some("معرف الفئة الرئيسية غير موجود، أو أنها ليست فئة جذعية"@)
            } else if old_parent_id is None && lookups.has_children {
                Some("لا يمكن تحويل هذه الفئة إلى فئة فرعية لأن لديها فئات فرعية تابعة لها"@)
            } else {
                None
            },
        }
    }
}

/// The JSON payload of a partial category update; an absent field keeps
/// its value.
#[derive(Debug)]
pub struct UpdateCategoryApiDto {
    pub name: Option<String>,
    pub name_ar: Option<String>,
    pub parent_id: Option<i64>,
    pub notes: Option<String>,
}

/// A category after a partial update is merged into it.
#[derive(Debug)]
pub struct CategoryPatch {
    pub name: String,
    pub name_ar: String,
    pub parent_id: Option<i64>,
    pub notes: Option<String>,
    /// The merged values equal the stored ones.
    pub unchanged: bool,
}

impl UpdateCategoryApiDto {
    /// Merges the payload into the stored category: each given field
    /// replaces the stored one, and `unchanged` tells whether the result
    /// equals what is stored.
    pub fn merge_with(&self, old: &CategoryResponseDto) -> (r: CategoryPatch)
        ensures
            r.name == (if self.name is Some { self.name->0 } else { old.name }),
            r.name_ar == (if self.name_ar is Some { self.name_ar->0 } else { old.name_ar }),
            r.parent_id == (if self.parent_id is Some { self.parent_id } else { old.parent_id }),
            r.notes == (if self.notes is Some { self.notes } else { old.notes }),
            r.unchanged == (r.name@ == old.name@ && r.name_ar@ == old.name_ar@ && r.parent_id
                == old.parent_id && opt_view(r.notes) == opt_view(old.notes)),
            self.name is None && self.name_ar is None && self.parent_id is None && self.notes is None
                ==> r.unchanged,
    {
        let name = text_or(&self.name, &old.name);
        let name_ar = text_or(&self.name_ar, &old.name_ar);
        let parent_id = match self.parent_id {
            Some(p) => Some(p),
            None => old.parent_id,
        };
        let notes = or_copy(&self.notes, &old.notes);
        let same_parent = match (parent_id, old.parent_id) {
            (Some(a), Some(b)) => a == b,
            (None, None) => true,
            _ => false,
        };
        let unchanged = same_text(name.as_str(), old.name.as_str()) && same_text(
            name_ar.as_str(),
            old.name_ar.as_str(),
        ) && same_parent && same_opt_text(&notes, &old.notes);
        CategoryPatch { name, name_ar, parent_id, notes, unchanged }
    }
}

/// The values of a category once a partial update is merged into it.
pub struct MergedCategoryData<'a> {
    pub name: &'a str,
    pub name_ar: &'a str,
    pub parent_id: Option<i64>,
}

impl<'a> MergedCategoryData<'a> {
    /// Checks a changed category: the names, then what the database
    /// answered about duplicate names, then the parent: not the category
    /// itself, an existing top-level category, and no sub-categories under
    /// a category that was top-level before.
    pub fn validate(
        &self,
        current_category_id: i64,
        old_parent_id: Option<i64>,
        lookups: &CategoryLookups,
    ) -> (r: Result<(), ApiError>)
        ensures
            api_check_answers(
                r,
                category_update_api_error(
                    self.name@,
                    self.name_ar@,
                    self.parent_id,
                    current_category_id,
                    old_parent_id,
                    *lookups,
                ),
            ),
    {
        match check_two_names(
            self.name,
            self.name_ar,
            CATEGORY_NAME_MAX,
            "الاسم بالإنجليزية مطلوب ولا يمكن تركه فارغاً",
            "اسم الفئة بالإنجليزية يجب ألا يتجاوز 50 حرفاً",
            "الاسم بالعربية مطلوب ولا يمكن تركه فارغاً",
            "اسم الفئة بالعربية يجب ألا يتجاوز 50 حرفاً",
        ) {
            Some(m) => {
                return Err((HttpStatus::BadRequest, m));
            },
            None => {},
        }
        if lookups.name_exists {
            return Err(bad_request("اسم الفئة بالإنجليزية موجود بالفعل"));
        }
        if lookups.name_ar_exists {
            return Err(bad_request("اسم الفئة بالعربية موجود بالفعل"));
        }
        match self.parent_id {
            None => Ok(()),
            Some(pid) => {
                if pid == current_category_id {
                    Err(bad_request("لا يمكن تعيين الفئة كأب لنفسها"))
                } else if !lookups.parent_is_root {
                    Err(bad_request("معرف الفئة الرئيسية غير موجود، أو أنها ليست فئة جذعية"))
                } else if old_parent_id.is_none() && lookups.has_children {
                    Err(bad_request("لا يمكن تحويل هذه الفئة إلى فئة فرعية لأن لديها فئات فرعية تابعة لها"))
                } else {
                    Ok(())
                }
            },
        }
    }
}

/// The JSON payload that creates a category.
#[derive(Debug)]
pub struct CreateCategoryApiDto {
    pub name: String,
    pub name_ar: String,
    pub parent_id: Option<i64>,
    pub notes: Option<String>,
}

impl CreateCategoryApiDto {
    /// Checks a new category: the names, then what the database answered
    /// about duplicate names and about the parent being a top-level
    /// category.
    pub fn validate(&self, lookups: &CategoryLookups) -> (r: Result<(), ApiError>)
        ensures
            api_check_answers(
                r,
                category_create_api_error(self.name@, self.name_ar@, self.parent_id, *lookups),
            ),
    {
        match check_two_names(
            self.name.as_str(),
            self.name_ar.as_str(),
            CATEGORY_NAME_MAX,
            "English name is required and cannot be empty",
            "English name must not exceed 50 characters",
            "Arabic name is required and cannot be empty",
            "Arabic name must not exceed 50 characters",
        ) {
            Some(m) => {
                return Err((HttpStatus::BadRequest, m));
            },
            None => {},
        }
        if lookups.name_exists {
            return Err(bad_request("English category name already exists"));
        }
        if lookups.name_ar_exists {
            return Err(bad_request("Arabic category name already exists"));
        }
        if self.parent_id.is_some() && !lookups.parent_is_root {
            return Err(bad_request("Parent ID does not exist, or is not a top-level category"));
        }
        Ok(())
    }
}

} // verus!

verus! {

/// A form's optional text: `None` when absent or only white space.
pub open spec fn blank_as_none(raw: Option<String>) -> Option<String> {
    match raw {
        Some(s) => if trim_chars(s@).len() == 0 {
            None
        } else {
            Some(s)
        },
        None => None,
    }
}

/// Turns a blank optional text of a form into `None`, keeping any other
/// text as it came.
pub fn empty_string_as_none(raw: Option<String>) -> (r: Option<String>)
    ensures
        r == blank_as_none(raw),
{
    match raw {
        Some(s) => {
            if char_count(trim_str(s.as_str())) == 0 {
                None
            } else {
                Some(s)
            }
        },
        None => None,
    }
}

/// What a form's optional number field holds: absent or blank is `None`,
/// otherwise the trimmed text must be a decimal `i64`.
pub open spec fn number_field(raw: Option<Seq<char>>) -> Option<Option<i64>> {
    match raw {
        None => Some(None),
        Some(s) => if trim_chars(s).len() == 0 {
            Some(None)
        } else {
            match decimal_i64(trim_chars(s)) {
                Some(v) => Some(Some(v)),
                None => None,
            }
        },
    }
}

/// Reads a form's optional number field: `None` when absent or blank,
/// otherwise the number that the trimmed text denotes; a text that is no
/// number is refused with the parse error.
pub fn empty_number_as_none(raw: Option<&str>) -> (r: Result<Option<i64>, core::num::ParseIntError>)
    ensures
        match r {
            Ok(v) => number_field(match raw {
                Some(s) => Some(s@),
                None => None,
            }) == Some(v),
            Err(_) => number_field(match raw {
                Some(s) => Some(s@),
                None => None,
            }) is None,
        },
{
    match raw {
        None => Ok(None),
        Some(s) => {
            let t = trim_str(s);
            if char_count(t) == 0 {
                Ok(None)
            } else {
                match parse_i64(t) {
                    Ok(v) => Ok(Some(v)),
                    Err(e) => Err(e),
                }
            }
        },
    }
}

/// A category as the list page shows it, with its parent's name.
#[derive(Clone, Debug)]
pub struct CategoryRow {
    pub id: i64,
    pub name: String,
    pub name_ar: String,
    pub notes: Option<String>,
    pub created_at: i64,
    pub parent_name: Option<String>,
}

/// The position of the last category with this id among the first `end`.
pub open spec fn find_last_id(cats: Seq<CategoryResponseDto>, id: i64, end: int) -> Option<int>
    decreases end,
{
    if end <= 0 || end > cats.len() {
        None
    } else if cats[end - 1].id == id {
        Some(end - 1)
    } else {
        find_last_id(cats, id, end - 1)
    }
}

/// The name of the parent of category `c`: the last category of the list
/// with the parent's id, if any.
pub open spec fn parent_name_of(cats: Seq<CategoryResponseDto>, c: CategoryResponseDto) -> Option<String> {
    match c.parent_id {
        None => None,
        Some(pid) => match find_last_id(cats, pid, cats.len() as int) {
            Some(j) => Some(cats[j].name),
            None => None,
        },
    }
}

/// `row` shows category `c` of the list `cats`.
pub open spec fn row_shows(row: CategoryRow, cats: Seq<CategoryResponseDto>, c: CategoryResponseDto) -> bool {
    &&& row.id == c.id
    &&& row.name == c.name
    &&& row.name_ar == c.name_ar
    &&& row.notes == c.notes
    &&& row.created_at == c.created_at
    &&& row.parent_name == parent_name_of(cats, c)
}

proof fn lemma_find_last_id(cats: Seq<CategoryResponseDto>, id: i64, end: int)
    ensures
        find_last_id(cats, id, end) matches Some(j) ==> 0 <= j < end && j < cats.len() && cats[j].id == id,
    decreases end,
{
    if 0 < end <= cats.len() && cats[end - 1].id != id {
        lemma_find_last_id(cats, id, end - 1);
    }
}

fn parent_name_lookup(cats: &[CategoryResponseDto], c: &CategoryResponseDto) -> (r: Option<String>)
    ensures
        r == parent_name_of(cats@, *c),
{
    match c.parent_id {
        None => None,
        Some(pid) => {
            let n = cats.len();
            let mut last: Option<usize> = None;
            let mut i: usize = 0;
            while i < n
                invariant
                    n == cats@.len(),
                    i <= n,
                    match last {
                        Some(j) => find_last_id(cats@, pid, i as int) == Some(j as int),
                        None => find_last_id(cats@, pid, i as int) is None,
                    },
                decreases n - i,
            {
                if cats[i].id == pid {
                    last = Some(i);
                }
                i = i + 1;
            }
            proof {
                lemma_find_last_id(cats@, pid, n as int);
            }
            match last {
                Some(j) => Some(cats[j].name.clone()),
                None => None,
            }
        },
    }
}

impl CategoryRow {
    /// One row per category, in list order; a parent's name is looked up by
    /// id among the categories (the last one with that id).
    pub fn build_rows(categories: &[CategoryResponseDto]) -> (r: Vec<CategoryRow>)
        ensures
            r@.len() == categories@.len(),
            forall|k: int| 0 <= k < r@.len() ==> row_shows(#[trigger] r@[k], categories@, categories@[k]),
    {
        let n = categories.len();
        let mut rows: Vec<CategoryRow> = Vec::new();
        for i in 0..n
            invariant
                n == categories@.len(),
                rows@.len() == i,
                forall|k: int| 0 <= k < i ==> row_shows(#[trigger] rows@[k], categories@, categories@[k]),
        {
            let c = &categories[i];
            let row = CategoryRow {
                id: c.id,
                name: c.name.clone(),
                name_ar: c.name_ar.clone(),
                notes: copy_opt(&c.notes),
                created_at: c.created_at,
                parent_name: parent_name_lookup(categories, c),
            };
            rows.push(row);
        }
        rows
    }
}

/// A copy of a category.
pub fn copy_category(c: &CategoryResponseDto) -> (r: CategoryResponseDto)
    ensures
        r == *c,
{
    CategoryResponseDto {
        id: c.id,
        name: c.name.clone(),
        name_ar: c.name_ar.clone(),
        parent_id: c.parent_id,
        notes: copy_opt(&c.notes),
        created_at: c.created_at,
        updated_at: c.updated_at,
    }
}

/// A top-level category that may be offered as a parent: not `exclude_id`.
pub open spec fn offered_as_parent(c: CategoryResponseDto, exclude_id: Option<i64>) -> bool {
    c.parent_id is None && Some(c.id) != exclude_id
}

/// The top-level categories, in list order, without `exclude_id` (the
/// category being edited, which cannot be its own parent).
pub fn build_root_categories(categories: &[CategoryResponseDto], exclude_id: Option<i64>) -> (r: Vec<
    CategoryResponseDto,
>)
    ensures
        r@ == categories@.filter(|c: CategoryResponseDto| offered_as_parent(c, exclude_id)),
{
    let n = categories.len();
    let mut out: Vec<CategoryResponseDto> = Vec::new();
    let ghost pred = |c: CategoryResponseDto| offered_as_parent(c, exclude_id);
    for i in 0..n
        invariant
            n == categories@.len(),
            pred == (|c: CategoryResponseDto| offered_as_parent(c, exclude_id)),
            out@ == categories@.take(i as int).filter(pred),
    {
        proof {
            assert(categories@.take(i + 1) =~= categories@.take(i as int).push(categories@[i as int]));
            categories@.take(i as int).lemma_filter_push(categories@[i as int], pred);
        }
        let c = &categories[i];
        if c.parent_id.is_none() && other_than(c.id, exclude_id) {
            out.push(copy_category(c));
        }
    }
    proof {
        assert(categories@.take(n as int) =~= categories@);
    }
    out
}

} // verus!

verus! {

/// The names a category is written with (trimmed) get the same verdict
/// from the web forms as the names that were sent, whatever the stored
/// categories and the parent.
pub proof fn law_stored_category_names_pass(
    name: Seq<char>,
    name_ar: Seq<char>,
    parent_id: Option<i64>,
    current: Option<i64>,
    cats: Seq<CategoryResponseDto>,
)
    ensures
        category_form_error(trim_chars(name), trim_chars(name_ar), parent_id, current, cats) == category_form_error(
            name,
            name_ar,
            parent_id,
            current,
            cats,
        ),
{
    law_text_problem_of_trimmed(name, CATEGORY_NAME_MAX as nat);
    law_text_problem_of_trimmed(name_ar, CATEGORY_NAME_MAX as nat);
    law_trim_idempotent(name);
    law_trim_idempotent(name_ar);
}

/// Blanking a form's optional text twice is blanking it once.
pub proof fn law_blank_as_none_idempotent(raw: Option<String>)
    ensures
        blank_as_none(blank_as_none(raw)) == blank_as_none(raw),
{
}

} // verus!

verus! {

/// Whether no two categories share an id (what `build_tree` needs).
pub fn has_unique_ids(categories: &[CategoryResponseDto]) -> (r: bool)
    ensures
        r == unique_ids(categories@),
{
    let n = categories.len();
    let mut a: usize = 0;
    while a < n
        invariant
            n == categories@.len(),
            a <= n,
            forall|x: int, y: int|
                0 <= x < a && 0 <= y < n && #[trigger] categories@[x].id == #[trigger] categories@[y].id ==> x == y,
        decreases n - a,
    {
        let mut b: usize = 0;
        while b < n
            invariant
                n == categories@.len(),
                a < n,
                b <= n,
                forall|x: int, y: int|
                    0 <= x < a && 0 <= y < n && #[trigger] categories@[x].id == #[trigger] categories@[y].id ==> x == y,
                forall|y: int| 0 <= y < b && categories@[a as int].id == #[trigger] categories@[y].id ==> y == a,
            decreases n - b,
        {
            if b != a && categories[a].id == categories[b].id {
                return false;
            }
            b = b + 1;
        }
        a = a + 1;
    }
    true
}

} // verus!

verus! {

/// The JSON API and the web forms apply the same name rules to a new
/// top-level category: when no other category holds either name, both
/// accept exactly the same names.
pub proof fn law_category_name_rules_agree(name: Seq<char>, name_ar: Seq<char>, lookups: CategoryLookups)
    requires
        !lookups.name_exists,
        !lookups.name_ar_exists,
    ensures
        category_create_api_error(name, name_ar, None, lookups) is None <==> category_form_error(
            name,
            name_ar,
            None,
            None,
            Seq::empty(),
        ) is None,
{
}

} // verus!

verus! {

/// How the JSON API judges a changed category: the names first (each
/// required, at most 50 characters once trimmed), then a duplicate English
/// name, then a duplicate Arabic name, then the parent (not the category
/// itself, an existing top-level category, and not under a category that
/// was top-level and has sub-categories). Each refusal has its message,
/// and the change is accepted exactly when every check passes.
pub proof fn law_category_update_refusals(
    name: Seq<char>,
    name_ar: Seq<char>,
    parent_id: Option<i64>,
    current: i64,
    old_parent_id: Option<i64>,
    l: CategoryLookups,
)
    ensures
        ({
            let r = category_update_api_error(name, name_ar, parent_id, current, old_parent_id, l);
            let names_ok = text_problem(name, 50) is None && text_problem(name_ar, 50) is None;
            &&& text_problem(name, 50) == Some(TextProblem::Missing) ==> r == Some(
                "الاسم بالإنجليزية مطلوب ولا يمكن تركه فارغاً"@,
            )
            &&& text_problem(name, 50) == Some(TextProblem::TooLong) ==> r == Some(
                "اسم الفئة بالإنجليزية يجب ألا يتجاوز 50 حرفاً"@,
            )
            &&& text_problem(name, 50) is None && text_problem(name_ar, 50) == Some(TextProblem::Missing) ==> r
                == Some("الاسم بالعربية مطلوب ولا يمكن تركه فارغاً"@)
            &&& text_problem(name, 50) is None && text_problem(name_ar, 50) == Some(TextProblem::TooLong) ==> r
                == Some("اسم الفئة بالعربية يجب ألا يتجاوز 50 حرفاً"@)
            &&& names_ok && l.name_exists ==> r == Some("اسم الفئة بالإنجليزية موجود بالفعل"@)
            &&& names_ok && !l.name_exists && l.name_ar_exists ==> r == Some("اسم الفئة بالعربية موجود بالفعل"@)
            &&& names_ok && !l.name_exists && !l.name_ar_exists && parent_id == Some(current) ==> r == Some(
                "لا يمكن تعيين الفئة كأب لنفسها"@,
            )
            &&& (r is None <==> (names_ok && !l.name_exists && !l.name_ar_exists && (parent_id matches Some(p) ==> (p
                != current && l.parent_is_root && !(old_parent_id is None && l.has_children)))))
        }),
{
}

/// How the JSON API judges a new category: the names, then a duplicate
/// English name, a duplicate Arabic name, and a parent that is not an
/// existing top-level category, each with its message; it is accepted
/// exactly when every check passes.
pub proof fn law_category_create_refusals(
    name: Seq<char>,
    name_ar: Seq<char>,
    parent_id: Option<i64>,
    l: CategoryLookups,
)
    ensures
        ({
            let r = category_create_api_error(name, name_ar, parent_id, l);
            let names_ok = text_problem(name, 50) is None && text_problem(name_ar, 50) is None;
            &&& names_ok && l.name_exists ==> r == Some("English category name already exists"@)
            &&& names_ok && !l.name_exists && l.name_ar_exists ==> r == Some("Arabic category name already exists"@)
            &&& names_ok && !l.name_exists && !l.name_ar_exists && parent_id is Some && !l.parent_is_root ==> r
                == Some("Parent ID does not exist, or is not a top-level category"@)
            &&& (r is None <==> (names_ok && !l.name_exists && !l.name_ar_exists && (parent_id is Some
                ==> l.parent_is_root)))
        }),
{
}

/// How the web forms judge a category against the stored ones: accepted
/// exactly when both names are valid, no other category has the English
/// name (trimmed, ignoring ASCII case) or the Arabic name (trimmed), and
/// the parent, if any, is an existing top-level category other than the
/// category itself, which must not be a top-level category with
/// sub-categories.
pub proof fn law_category_form_accepts(
    name: Seq<char>,
    name_ar: Seq<char>,
    parent_id: Option<i64>,
    current: Option<i64>,
    cats: Seq<CategoryResponseDto>,
)
    ensures
        category_form_error(name, name_ar, parent_id, current, cats) is None <==> ({
            &&& text_problem(name, 50) is None
            &&& text_problem(name_ar, 50) is None
            &&& !(exists|i: int|
                0 <= i < cats.len() && Some(#[trigger] cats[i].id) != current && eq_ignore_ascii_case_chars(
                    trim_chars(cats[i].name@),
                    trim_chars(name),
                ))
            &&& !(exists|i: int|
                0 <= i < cats.len() && Some(#[trigger] cats[i].id) != current && trim_chars(cats[i].name_ar@)
                    == trim_chars(name_ar))
            &&& parent_id matches Some(p) ==> {
                &&& Some(p) != current
                &&& find_id(cats, p) matches Some(k) && cats[k].parent_id is None
                &&& current matches Some(c) ==> (find_id(cats, c) matches Some(j) && cats[j].parent_id is None
                    ==> !has_children(cats, c))
            }
        }),
{
    if english_name_in_use(cats, current, trim_chars(name)) {
        let i = choose|i: int|
            #![trigger cats[i]]
            0 <= i < cats.len() && Some(cats[i].id) != current && eq_ignore_ascii_case_chars(
                trim_chars(cats[i].name@),
                trim_chars(name),
            );
        assert(Some(cats[i].id) != current);
    }
    if arabic_name_in_use(cats, current, trim_chars(name_ar)) {
        let i = choose|i: int|
            #![trigger cats[i]]
            0 <= i < cats.len() && Some(cats[i].id) != current && trim_chars(cats[i].name_ar@) == trim_chars(name_ar);
        assert(Some(cats[i].id) != current);
    }
}

} // verus!

verus! {

/// The roots of the tree come from the top-level categories: each listed
/// position is a category without a parent, and every category without a
/// parent is listed.
pub proof fn law_root_indices_are_top_level(cats: Seq<CategoryResponseDto>)
    ensures
        forall|k: int|
            0 <= k < root_indices(cats).len() ==> 0 <= #[trigger] root_indices(cats)[k] < cats.len()
                && cats[root_indices(cats)[k]].parent_id is None,
        forall|j: int| 0 <= j < cats.len() && cats[j].parent_id is None ==> #[trigger] root_indices(cats).contains(j),
{
    let ps = positions(cats.len());
    let pred = |i: int| cats[i].parent_id is None;
    #[allow(deprecated)]
    ps.filter_lemma(pred);
    assert forall|k: int| 0 <= k < root_indices(cats).len() implies 0 <= #[trigger] root_indices(cats)[k] < cats.len()
        && cats[root_indices(cats)[k]].parent_id is None by {
        let x = ps.filter(pred)[k];
        assert(ps.filter(pred).contains(x));
        ps.lemma_filter_contains_rev(pred, x);
        assert(pred(x));
    }
    assert forall|j: int| 0 <= j < cats.len() && cats[j].parent_id is None implies #[trigger] root_indices(
        cats,
    ).contains(j) by {
        assert(ps[j] == j);
        assert(pred(ps[j]));
    }
}

/// The children of a node come from the sub-categories: each listed
/// position is a category whose parent is `id`, and every such category is
/// listed.
pub proof fn law_child_indices_are_sub_categories(cats: Seq<CategoryResponseDto>, id: i64)
    ensures
        forall|k: int|
            0 <= k < child_indices(cats, id).len() ==> 0 <= #[trigger] child_indices(cats, id)[k] < cats.len()
                && cats[child_indices(cats, id)[k]].parent_id == Some(id),
        forall|j: int|
            0 <= j < cats.len() && cats[j].parent_id == Some(id) ==> #[trigger] child_indices(cats, id).contains(j),
{
    let ps = positions(cats.len());
    let pred = |i: int| cats[i].parent_id == Some(id);
    #[allow(deprecated)]
    ps.filter_lemma(pred);
    assert forall|k: int| 0 <= k < child_indices(cats, id).len() implies 0 <= #[trigger] child_indices(cats, id)[k]
        < cats.len() && cats[child_indices(cats, id)[k]].parent_id == Some(id) by {
        let x = ps.filter(pred)[k];
        assert(ps.filter(pred).contains(x));
        ps.lemma_filter_contains_rev(pred, x);
        assert(pred(x));
    }
    assert forall|j: int| 0 <= j < cats.len() && cats[j].parent_id == Some(id) implies #[trigger] child_indices(
        cats,
        id,
    ).contains(j) by {
        assert(ps[j] == j);
        assert(pred(ps[j]));
    }
}

/// A tree node built for a category carries that category's id, names,
/// notes and times, and its children carry those of its sub-categories, in
/// list order, each a sub-category of it.
pub proof fn law_tree_node_fields(cats: Seq<CategoryResponseDto>, i: int, t: CategoryTreeDto)
    requires
        represents(cats, i, t),
    ensures
        t.id == cats[i].id,
        t.name == cats[i].name,
        t.name_ar == cats[i].name_ar,
        t.notes == cats[i].notes,
        t.created_at == cats[i].created_at,
        t.updated_at == cats[i].updated_at,
        t.children@.len() == child_indices(cats, cats[i].id).len(),
        forall|k: int|
            0 <= k < t.children@.len() ==> {
                let c = cats[child_indices(cats, cats[i].id)[k]];
                &&& (#[trigger] t.children@[k]).id == c.id
                &&& t.children@[k].name == c.name
                &&& t.children@[k].name_ar == c.name_ar
                &&& t.children@[k].notes == c.notes
                &&& t.children@[k].created_at == c.created_at
                &&& t.children@[k].updated_at == c.updated_at
                &&& c.parent_id == Some(cats[i].id)
            },
{
    law_child_indices_are_sub_categories(cats, cats[i].id);
    assert forall|k: int| 0 <= k < t.children@.len() implies {
        let c = cats[child_indices(cats, cats[i].id)[k]];
        &&& (#[trigger] t.children@[k]).id == c.id
        &&& t.children@[k].name == c.name
        &&& t.children@[k].name_ar == c.name_ar
        &&& t.children@[k].notes == c.notes
        &&& t.children@[k].created_at == c.created_at
        &&& t.children@[k].updated_at == c.updated_at
        &&& c.parent_id == Some(cats[i].id)
    } by {
        assert(represents(cats, child_indices(cats, cats[i].id)[k], t.children@[k]));
    }
}

} // verus!

verus! {

/// The search by id finds the first category with that id, and finds
/// nothing only when no category has it.
pub proof fn law_find_id_first(cats: Seq<CategoryResponseDto>, id: i64)
    ensures
        find_id(cats, id) matches Some(k) ==> 0 <= k < cats.len() && cats[k].id == id && forall|j: int|
            0 <= j < k ==> #[trigger] cats[j].id != id,
        find_id(cats, id) is None ==> forall|j: int| 0 <= j < cats.len() ==> #[trigger] cats[j].id != id,
{
    lemma_find_id_first_from(cats, id, 0);
}

proof fn lemma_find_id_first_from(cats: Seq<CategoryResponseDto>, id: i64, start: int)
    requires
        0 <= start,
    ensures
        find_id_from(cats, id, start) matches Some(k) ==> start <= k < cats.len() && cats[k].id == id && forall|j: int|
            start <= j < k ==> #[trigger] cats[j].id != id,
        find_id_from(cats, id, start) is None ==> forall|j: int| start <= j < cats.len() ==> #[trigger] cats[j].id != id,
    decreases cats.len() - start,
{
    if start < cats.len() && cats[start].id != id {
        lemma_find_id_first_from(cats, id, start + 1);
    }
}

/// A category page row shows its category's fields, and the name of its
/// parent: none for a top-level category, the name of the (last) category
/// with the parent's id when there is one, and none when there is not.
pub proof fn law_category_row_fields(row: CategoryRow, cats: Seq<CategoryResponseDto>, c: CategoryResponseDto)
    requires
        row_shows(row, cats, c),
    ensures
        row.id == c.id && row.name == c.name && row.name_ar == c.name_ar && row.notes == c.notes && row.created_at
            == c.created_at,
        c.parent_id is None ==> row.parent_name is None,
        c.parent_id matches Some(p) ==> (row.parent_name is Some <==> exists|j: int|
            0 <= j < cats.len() && #[trigger] cats[j].id == p),
        c.parent_id matches Some(p) ==> (row.parent_name matches Some(n) ==> exists|j: int|
            0 <= j < cats.len() && #[trigger] cats[j].id == p && cats[j].name == n && forall|m: int|
                j < m < cats.len() ==> #[trigger] cats[m].id != p),
{
    if c.parent_id is Some {
        lemma_find_last_first(cats, c.parent_id->0, cats.len() as int);
    }
}

proof fn lemma_find_last_first(cats: Seq<CategoryResponseDto>, id: i64, end: int)
    requires
        0 <= end <= cats.len(),
    ensures
        find_last_id(cats, id, end) matches Some(j) ==> 0 <= j < end && cats[j].id == id && forall|m: int|
            j < m < end ==> #[trigger] cats[m].id != id,
        find_last_id(cats, id, end) is None ==> forall|m: int| 0 <= m < end ==> #[trigger] cats[m].id != id,
    decreases end,
{
    if end > 0 && cats[end - 1].id != id {
        lemma_find_last_first(cats, id, end - 1);
    }
}

/// A category offered as a parent is a top-level category other than the
/// one being edited.
pub proof fn law_offered_as_parent_meaning(c: CategoryResponseDto, exclude_id: Option<i64>)
    ensures
        offered_as_parent(c, exclude_id) <==> (c.parent_id is None && (exclude_id matches Some(e) ==> c.id != e)),
{
}

/// A form's optional text is dropped exactly when it is blank once trimmed;
/// an optional number is absent when left out or blank, and otherwise is
/// the decimal number its trimmed text spells, or refused.
pub proof fn law_form_fields_meaning(raw: Option<String>, num: Option<Seq<char>>)
    ensures
        raw is None ==> blank_as_none(raw) is None,
        raw matches Some(s) ==> (trim_chars(s@).len() == 0 ==> blank_as_none(raw) is None),
        raw matches Some(s) ==> (trim_chars(s@).len() > 0 ==> blank_as_none(raw) == raw),
        num is None ==> number_field(num) == Some(None::<i64>),
        num matches Some(s) ==> (trim_chars(s).len() == 0 ==> number_field(num) == Some(None::<i64>)),
        num matches Some(s) ==> (trim_chars(s).len() > 0 ==> (decimal_i64(trim_chars(s)) matches Some(v)
            ==> number_field(num) == Some(Some(v)))),
        num matches Some(s) ==> (trim_chars(s).len() > 0 ==> (number_field(num) is None <==> decimal_i64(
            trim_chars(s),
        ) is None)),
{
}

} // verus!

verus! {

/// The messages of the category forms, in order: the names, then an
/// English name or an Arabic name that another category already has, then
/// the parent: the category itself, a missing one, a sub-category, or a
/// move of a top-level category that has sub-categories.
pub proof fn law_category_form_messages(
    name: Seq<char>,
    name_ar: Seq<char>,
    parent_id: Option<i64>,
    current: Option<i64>,
    cats: Seq<CategoryResponseDto>,
)
    ensures
        ({
            let r = category_form_error(name, name_ar, parent_id, current, cats);
            let n = trim_chars(name).len();
            let a = trim_chars(name_ar).len();
            let names_ok = 0 < n <= 50 && 0 < a <= 50;
            let dup_en = english_name_in_use(cats, current, trim_chars(name));
            let dup_ar = arabic_name_in_use(cats, current, trim_chars(name_ar));
            let free = names_ok && !dup_en && !dup_ar;
            &&& n == 0 ==> r == Some("الاسم بالإنجليزية مطلوب ولا يمكن تركه فارغاً"@)
            &&& n > 50 ==> r == Some("اسم الفئة بالإنجليزية يجب ألا يتجاوز 50 حرفاً"@)
            &&& 0 < n <= 50 && a == 0 ==> r == Some("الاسم بالعربية مطلوب ولا يمكن تركه فارغاً"@)
            &&& 0 < n <= 50 && a > 50 ==> r == Some("اسم الفئة بالعربية يجب ألا يتجاوز 50 حرفاً"@)
            &&& names_ok && dup_en ==> r == Some("اسم الفئة بالإنجليزية موجود بالفعل"@)
            &&& names_ok && !dup_en && dup_ar ==> r == Some("اسم الفئة بالعربية موجود بالفعل"@)
            &&& free && parent_id is None ==> r is None
            &&& free && parent_id is Some && parent_id == current ==> r == Some("لا يمكن تعيين الفئة كأب لنفسها"@)
            &&& free && (parent_id matches Some(p) && Some(p) != current && find_id(cats, p) is None) ==> r == Some(
                "معرف الفئة الرئيسية (Parent ID) غير موجود"@,
            )
            &&& free && (parent_id matches Some(p) && Some(p) != current && (find_id(cats, p) matches Some(k)
                && cats[k].parent_id is Some)) ==> r == Some(
                "لا يمكن اختيار فئة فرعية لتكون أب، يجب أن تكون الفئة المختارة جذعية"@,
            )
        }),
{
}

} // verus!

verus! {

proof fn lemma_filter_increasing(s: Seq<int>, p: spec_fn(int) -> bool)
    requires
        forall|a: int, b: int| 0 <= a < b < s.len() ==> s[a] < s[b],
    ensures
        forall|a: int, b: int|
            0 <= a < b < s.filter(p).len() ==> #[trigger] s.filter(p)[a] < #[trigger] s.filter(p)[b],
        forall|k: int| 0 <= k < s.filter(p).len() ==> s.contains(#[trigger] s.filter(p)[k]),
    decreases s.len(),
{
    if s.len() > 0 {
        let t = s.drop_last();
        lemma_filter_increasing(t, p);
        let f = t.filter(p);
        let sf = s.filter(p);
        reveal(Seq::filter);
        assert(sf == (if p(s.last()) { f.push(s.last()) } else { f }));
        assert forall|k: int| 0 <= k < f.len() implies #[trigger] f[k] < s.last() && s.contains(f[k]) by {
            let j = choose|j: int| 0 <= j < t.len() && t[j] == f[k];
            assert(t[j] == s[j]);
        }
        if p(s.last()) {
            assert forall|a: int, b: int| 0 <= a < b < sf.len() implies #[trigger] sf[a] < #[trigger] sf[b] by {
                assert(sf[a] == f[a]);
                if b < f.len() {
                    assert(sf[b] == f[b]);
                }
            }
            assert forall|k: int| 0 <= k < sf.len() implies s.contains(#[trigger] sf[k]) by {
                if k < f.len() {
                    assert(sf[k] == f[k]);
                } else {
                    assert(s[s.len() - 1] == sf[k]);
                }
            }
        }
    }
}

/// The roots and the children of a node come in list order: the positions
/// they are built from strictly increase.
pub proof fn law_tree_keeps_list_order(cats: Seq<CategoryResponseDto>, id: i64)
    ensures
        forall|a: int, b: int|
            0 <= a < b < root_indices(cats).len() ==> #[trigger] root_indices(cats)[a] < #[trigger] root_indices(
                cats,
            )[b],
        forall|a: int, b: int|
            0 <= a < b < child_indices(cats, id).len() ==> #[trigger] child_indices(cats, id)[a]
                < #[trigger] child_indices(cats, id)[b],
{
    lemma_filter_increasing(positions(cats.len()), |i: int| cats[i].parent_id is None);
    lemma_filter_increasing(positions(cats.len()), |i: int| cats[i].parent_id == Some(id));
}

} // verus!
