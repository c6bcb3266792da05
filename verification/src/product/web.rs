//! The decisions of the product pages: the flash message, the duplicate
//! name check, what a form writes, which product the edit page shows, and
//! what each change answers.
use vstd::prelude::*;

use super::{opt_str, product_form_error, CreateProductForm, MergedProductFormData, ProductResponseDto, UpdateProductForm};
use super::api::ProductValues;
use crate::category::other_than;
use crate::reply::{flash_message, flash_of, write_answer, write_answered, DbFailure, PageAnswer};
use crate::text::{copy_opt, eq_ignore_ascii_case, eq_ignore_ascii_case_chars, opt_view, owned, trim_chars, trim_str};

verus! {

/// The flag that a redirect leaves in the address of the products page.
#[derive(Debug)]
pub struct FlashParams {
    pub ok: Option<String>,
}

impl FlashParams {
    /// The success message for the flag, if it is one of the three.
    pub fn success_message(&self) -> (r: Option<String>)
        ensures
            opt_view(r) == flash_of(
                opt_view(self.ok),
                "تم إنشاء المنتج بنجاح"@,
                "تم تحديث المنتج بنجاح"@,
                "تم حذف المنتج بنجاح"@,
            ),
    {
        let ok = match &self.ok {
            Some(s) => Some(s.as_str()),
            None => None,
        };
        flash_message(ok, "تم إنشاء المنتج بنجاح", "تم تحديث المنتج بنجاح", "تم حذف المنتج بنجاح")
    }
}

/// Some product other than `exclude` has a stored name equal to `name`
/// without regard to ASCII case.
pub open spec fn product_name_in_use(ps: Seq<ProductResponseDto>, exclude: Option<i64>, name: Seq<char>) -> bool {
    exists|i: int|
        #![trigger ps[i]]
        0 <= i < ps.len() && Some(ps[i].id) != exclude && eq_ignore_ascii_case_chars(ps[i].name@, name)
}

/// Whether some product other than `exclude` has this name, ignoring ASCII
/// case.
pub fn product_name_taken(products: &[ProductResponseDto], exclude: Option<i64>, name: &str) -> (r: bool)
    ensures
        r == product_name_in_use(products@, exclude, name@),
{
    let n = products.len();
    let mut i: usize = 0;
    while i < n
        invariant
            n == products@.len(),
            i <= n,
            forall|j: int|
                #![trigger products@[j]]
                0 <= j < i ==> !(Some(products@[j].id) != exclude && eq_ignore_ascii_case_chars(
                    products@[j].name@,
                    name@,
                )),
        decreases n - i,
    {
        if other_than(products[i].id, exclude) && eq_ignore_ascii_case(products[i].name.as_str(), name) {
            assert(products@[i as int] == products[i as int]);
            return true;
        }
        i = i + 1;
    }
    false
}

/// The refusal of a product form among the stored products, if any: the
/// fields first, then the English name (trimmed) already used by another
/// product, with `taken` as its message.
pub open spec fn product_page_error(
    name: Seq<char>,
    name_ar: Seq<char>,
    category_id: i64,
    notes: Option<Seq<char>>,
    exclude: Option<i64>,
    products: Seq<ProductResponseDto>,
    taken: Seq<char>,
) -> Option<Seq<char>> {
    let fields = product_form_error(name, name_ar, category_id, notes);
    if fields is Some {
        fields
    } else if product_name_in_use(products, exclude, trim_chars(name)) {
        Some(taken)
    } else {
        None
    }
}

/// `v` holds the trimmed names, the category and the notes as given.
pub open spec fn product_values_from(
    v: ProductValues,
    name: Seq<char>,
    name_ar: Seq<char>,
    category_id: i64,
    notes: Option<Seq<char>>,
) -> bool {
    v.name@ == trim_chars(name) && v.name_ar@ == trim_chars(name_ar) && v.category_id == category_id && opt_view(
        v.notes,
    ) == notes
}

fn page_plan(
    name: &str,
    name_ar: &str,
    category_id: i64,
    notes: &Option<String>,
    exclude: Option<i64>,
    products: &[ProductResponseDto],
    taken: &str,
) -> (r: Result<ProductValues, String>)
    ensures
        match r {
            Ok(v) => product_page_error(name@, name_ar@, category_id, opt_view(*notes), exclude, products@, taken@)
                is None && product_values_from(v, name@, name_ar@, category_id, opt_view(*notes)),
            Err(m) => product_page_error(name@, name_ar@, category_id, opt_view(*notes), exclude, products@, taken@)
                == Some(m@),
        },
{
    let merged = MergedProductFormData { name, name_ar, category_id, notes: opt_str(notes) };
    match merged.validate() {
        Err(m) => {
            return Err(m);
        },
        Ok(()) => {},
    }
    let name_trimmed = trim_str(name);
    if product_name_taken(products, exclude, name_trimmed) {
        return Err(owned(taken));
    }
    Ok(
        ProductValues {
            name: owned(name_trimmed),
            name_ar: owned(trim_str(name_ar)),
            category_id,
            notes: copy_opt(notes),
        },
    )
}

impl CreateProductForm {
    /// What the form writes as a new product: the form checked, then its
    /// English name free among the stored products; or the message that
    /// refuses it.
    pub fn plan(&self, products: &[ProductResponseDto]) -> (r: Result<ProductValues, String>)
        ensures
            match r {
                Ok(v) => product_page_error(
                    self.name@,
                    self.name_ar@,
                    self.category_id,
                    opt_view(self.notes),
                    None,
                    products@,
                    "اسم المنتج بالإنجليزية موجود بالفعل"@,
                ) is None && product_values_from(
                    v,
                    self.name@,
                    self.name_ar@,
                    self.category_id,
                    opt_view(self.notes),
                ),
                Err(m) => product_page_error(
                    self.name@,
                    self.name_ar@,
                    self.category_id,
                    opt_view(self.notes),
                    None,
                    products@,
                    "اسم المنتج بالإنجليزية موجود بالفعل"@,
                ) == Some(m@),
            },
    {
        page_plan(
            self.name.as_str(),
            self.name_ar.as_str(),
            self.category_id,
            &self.notes,
            None,
            products,
            "اسم المنتج بالإنجليزية موجود بالفعل",
        )
    }
}

impl UpdateProductForm {
    /// What the form writes over product `id`: the form checked, then its
    /// English name free among the other products; or the message that
    /// refuses it.
    pub fn plan(&self, id: i64, products: &[ProductResponseDto]) -> (r: Result<ProductValues, String>)
        ensures
            match r {
                Ok(v) => product_page_error(
                    self.name@,
                    self.name_ar@,
                    self.category_id,
                    opt_view(self.notes),
                    Some(id),
                    products@,
                    "اسم المنتج بالإنجليزية مستخدم بالفعل لمنتج آخر"@,
                ) is None && product_values_from(
                    v,
                    self.name@,
                    self.name_ar@,
                    self.category_id,
                    opt_view(self.notes),
                ),
                Err(m) => product_page_error(
                    self.name@,
                    self.name_ar@,
                    self.category_id,
                    opt_view(self.notes),
                    Some(id),
                    products@,
                    "اسم المنتج بالإنجليزية مستخدم بالفعل لمنتج آخر"@,
                ) == Some(m@),
            },
    {
        page_plan(
            self.name.as_str(),
            self.name_ar.as_str(),
            self.category_id,
            &self.notes,
            Some(id),
            products,
            "اسم المنتج بالإنجليزية مستخدم بالفعل لمنتج آخر",
        )
    }
}

/// The position of the first product with id `id`.
pub open spec fn first_product_with(ps: Seq<ProductResponseDto>, id: i64, k: int) -> bool {
    0 <= k < ps.len() && ps[k].id == id && forall|j: int| 0 <= j < k ==> #[trigger] ps[j].id != id
}

fn copy_product(p: &ProductResponseDto) -> (r: ProductResponseDto)
    ensures
        r == *p,
{
    ProductResponseDto {
        id: p.id,
        name: p.name.clone(),
        name_ar: p.name_ar.clone(),
        category_id: p.category_id,
        notes: copy_opt(&p.notes),
        created_at: p.created_at,
        updated_at: p.updated_at,
    }
}

/// The first product with id `id`, as the edit page shows it.
pub fn find_product(products: &[ProductResponseDto], id: i64) -> (r: Option<ProductResponseDto>)
    ensures
        match r {
            Some(p) => exists|k: int| first_product_with(products@, id, k) && p == products@[k],
            None => forall|j: int| 0 <= j < products@.len() ==> #[trigger] products@[j].id != id,
        },
{
    let n = products.len();
    let mut i: usize = 0;
    while i < n
        invariant
            n == products@.len(),
            i <= n,
            forall|j: int| 0 <= j < i ==> #[trigger] products@[j].id != id,
        decreases n - i,
    {
        if products[i].id == id {
            assert(first_product_with(products@, id, i as int));
            return Some(copy_product(&products[i]));
        }
        i = i + 1;
    }
    None
}

/// The message when the product to update does not exist.
pub fn missing_product_message() -> (r: String)
    ensures
        r@ == "المنتج غير موجود"@,
{
    owned("المنتج غير موجود")
}

/// The answer once the insert from the form ended with `outcome`.
pub fn create_answer(outcome: Result<(), DbFailure>) -> (a: PageAnswer)
    ensures
        write_answered(
            a,
            outcome,
            "/web/products?ok=created"@,
            Some("اسم المنتج موجود بالفعل"@),
            None,
            "حدث خطأ أثناء إضافة المنتج، حاول مرة أخرى"@,
        ),
{
    write_answer(
        outcome,
        "/web/products?ok=created",
        Some("اسم المنتج موجود بالفعل"),
        None,
        "حدث خطأ أثناء إضافة المنتج، حاول مرة أخرى",
    )
}

/// The answer once the update from the form ended with `outcome`.
pub fn update_answer(outcome: Result<(), DbFailure>) -> (a: PageAnswer)
    ensures
        write_answered(
            a,
            outcome,
            "/web/products?ok=updated"@,
            Some("اسم المنتج موجود بالفعل"@),
            None,
            "حدث خطأ أثناء تحديث المنتج، حاول مرة أخرى"@,
        ),
{
    write_answer(
        outcome,
        "/web/products?ok=updated",
        Some("اسم المنتج موجود بالفعل"),
        None,
        "حدث خطأ أثناء تحديث المنتج، حاول مرة أخرى",
    )
}

/// The answer once a delete ended with `outcome`.
pub fn delete_answer(outcome: Result<(), DbFailure>) -> (a: PageAnswer)
    ensures
        write_answered(
            a,
            outcome,
            "/web/products?ok=deleted"@,
            None,
            Some("لا يمكن حذف هذا المنتج لأنه مرتبط ببيانات أخرى (مثل المتغيرات). قم بإزالتها أولاً."@),
            "حدث خطأ أثناء حذف المنتج"@,
        ),
{
    write_answer(
        outcome,
        "/web/products?ok=deleted",
        None,
        Some("لا يمكن حذف هذا المنتج لأنه مرتبط ببيانات أخرى (مثل المتغيرات). قم بإزالتها أولاً."),
        "حدث خطأ أثناء حذف المنتج",
    )
}

} // verus!

verus! {

/// How the product pages judge a form against the stored products: the
/// fields first (`product_form_error`), then the English name, trimmed,
/// must not be the stored name of another product (compared as stored,
/// ignoring ASCII case), or the page's own message refuses it; otherwise
/// it is accepted.
pub proof fn law_product_page_refusals(
    name: Seq<char>,
    name_ar: Seq<char>,
    category_id: i64,
    notes: Option<Seq<char>>,
    exclude: Option<i64>,
    products: Seq<ProductResponseDto>,
    taken: Seq<char>,
)
    ensures
        ({
            let r = product_page_error(name, name_ar, category_id, notes, exclude, products, taken);
            let dup = exists|i: int|
                0 <= i < products.len() && Some(#[trigger] products[i].id) != exclude && eq_ignore_ascii_case_chars(
                    products[i].name@,
                    trim_chars(name),
                );
            &&& product_form_error(name, name_ar, category_id, notes) is Some ==> r == product_form_error(
                name,
                name_ar,
                category_id,
                notes,
            )
            &&& product_form_error(name, name_ar, category_id, notes) is None && dup ==> r == Some(taken)
            &&& (r is None <==> (product_form_error(name, name_ar, category_id, notes) is None && !dup))
        }),
{
    if product_name_in_use(products, exclude, trim_chars(name)) {
        let i = choose|i: int|
            #![trigger products[i]]
            0 <= i < products.len() && Some(products[i].id) != exclude && eq_ignore_ascii_case_chars(
                products[i].name@,
                trim_chars(name),
            );
        assert(Some(products[i].id) != exclude);
    }
}

/// What a product form writes: its names trimmed, its category, and its
/// notes as given.
pub proof fn law_product_values_fields(
    v: ProductValues,
    name: Seq<char>,
    name_ar: Seq<char>,
    category_id: i64,
    notes: Option<Seq<char>>,
)
    ensures
        product_values_from(v, name, name_ar, category_id, notes) <==> (v.name@ == trim_chars(name) && v.name_ar@
            == trim_chars(name_ar) && v.category_id == category_id && (match v.notes {
            Some(t) => notes == Some(t@),
            None => notes is None,
        })),
{
}

} // verus!

verus! {

/// The product an edit page shows is the first one with the asked id.
pub proof fn law_first_product_meaning(ps: Seq<ProductResponseDto>, id: i64, k: int)
    ensures
        first_product_with(ps, id, k) <==> (0 <= k < ps.len() && ps[k].id == id && forall|j: int|
            0 <= j < k ==> #[trigger] ps[j].id != id),
{
}

} // verus!
