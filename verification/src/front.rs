//! What the graphical front end decides: which page is shown, which locales
//! are chosen, how a keyboard layout is applied, what a search finds.
//!
//! The widgets are not here. They hand in what the user did and show what
//! these functions answer.

use crate::modules::users::ProgramOutput;
use crate::script::{Invocation, InvocationView};
use crate::text::{concat3, contains, lowercase, lowercase_of, str_contains, str_equal, views};
use crate::utils::exec::{exec, spec_exec};
use crate::utils::returncode_eval::HostError;
use vstd::prelude::*;
use vstd::string::*;

verus! {

/// The pages of the window and the one that is shown.
#[derive(Debug, Clone, Copy, PartialEq, Eq)]
pub struct Navigation {
    current_page: usize,
    pages: usize,
}

/// Which of the window's controls are shown.
#[derive(Debug, Clone, Copy, PartialEq, Eq, Structural)]
pub struct NavigationButtons {
    pub back_visible: bool,
    pub next_visible: bool,
    pub bar_revealed: bool,
}

impl Navigation {
    /// The page that is shown, counted from 0.
    pub closed spec fn current(self) -> nat {
        self.current_page as nat
    }

    /// The number of pages.
    pub closed spec fn count(self) -> nat {
        self.pages as nat
    }

    /// There is a page, and the page shown is one of them.
    #[verifier::type_invariant]
    pub closed spec fn well_formed(self) -> bool {
        self.current_page < self.pages
    }

    /// A window of `pages` pages that shows the first.
    pub fn new(pages: usize) -> (r: Self)
        requires
            pages > 0,
        ensures
            r.current() == 0,
            r.count() == pages,
    {
        Self { current_page: 0, pages }
    }

    /// The page that is shown.
    pub fn current_page(&self) -> (r: usize)
        ensures
            r == self.current(),
            r < self.count(),
    {
        proof {
            use_type_invariant(self);
        }
        self.current_page
    }

    /// Goes to the page after this one, if there is one; says whether it went.
    pub fn next_page(&mut self) -> (moved: bool)
        ensures
            final(self).count() == old(self).count(),
            moved == (old(self).current() + 1 < old(self).count()),
            final(self).current() == if moved {
                old(self).current() + 1
            } else {
                old(self).current()
            },
    {
        proof {
            use_type_invariant(&*self);
        }
        if self.current_page < self.pages - 1 {
            self.current_page = self.current_page + 1;
            true
        } else {
            false
        }
    }

    /// Goes to the page before this one, if there is one; says whether it went.
    pub fn previous_page(&mut self) -> (moved: bool)
        ensures
            final(self).count() == old(self).count(),
            moved == (old(self).current() > 0),
            final(self).current() == if moved {
                old(self).current() - 1
            } else {
                old(self).current() as int
            },
    {
        proof {
            use_type_invariant(&*self);
        }
        if self.current_page > 0 {
            self.current_page = self.current_page - 1;
            true
        } else {
            false
        }
    }

    /// The controls for the page that is shown: no way back on the first
    /// page, no way on on the last, and the bar only between the two.
    pub fn update_navigation_buttons(&self) -> (r: NavigationButtons)
        ensures
            r.back_visible == (self.current() != 0),
            r.next_visible == (self.current() + 1 != self.count()),
            r.bar_revealed == (r.back_visible && r.next_visible),
    {
        proof {
            use_type_invariant(self);
        }
        let is_first_page = self.current_page == 0;
        let is_last_page = self.current_page == self.pages - 1;
        NavigationButtons {
            back_visible: !is_first_page,
            next_visible: !is_last_page,
            bar_revealed: !is_first_page && !is_last_page,
        }
    }
}

/// The locales that the user chose besides the main one.
#[derive(Debug, PartialEq, Eq)]
pub struct LocaleSelection {
    selected_locales: Vec<String>,
    is_valid: bool,
}

/// No text occurs twice in `names`.
pub open spec fn distinct(names: Seq<Seq<char>>) -> bool {
    forall|i: int, j: int| 0 <= i < j < names.len() ==> names[i] != names[j]
}

/// `names` without every occurrence of `name`.
pub open spec fn without(names: Seq<Seq<char>>, name: Seq<char>) -> Seq<Seq<char>>
    decreases names.len(),
{
    if names.len() == 0 {
        Seq::empty()
    } else if names.last() == name {
        without(names.drop_last(), name)
    } else {
        without(names.drop_last(), name).push(names.last())
    }
}

/// What is left after a removal holds nothing that was not there, in the
/// order it was in, and not the name removed.
pub proof fn lemma_without(names: Seq<Seq<char>>, name: Seq<char>)
    ensures
        !without(names, name).contains(name),
        forall|other: Seq<char>|
            other != name ==> (without(names, name).contains(other) <==> names.contains(other)),
        distinct(names) ==> distinct(without(names, name)),
        without(names, name).len() <= names.len(),
    decreases names.len(),
{
    if names.len() > 0 {
        let front = names.drop_last();
        let last = names.last();
        lemma_without(front, name);
        let rest = without(front, name);
        assert forall|other: Seq<char>| other != name implies (without(names, name).contains(other)
            <==> names.contains(other)) by {
            if names.contains(other) {
                let i = choose|i: int| 0 <= i < names.len() && names[i] == other;
                if i < front.len() {
                    assert(front[i] == other);
                    assert(front.contains(other));
                    let k = choose|k: int| 0 <= k < rest.len() && rest[k] == other;
                    if last != name {
                        assert(rest.push(last)[k] == other);
                    }
                } else {
                    assert(last == other);
                    assert(rest.push(last)[rest.len() as int] == other);
                }
            }
            if without(names, name).contains(other) {
                let k = choose|k: int|
                    0 <= k < without(names, name).len() && without(names, name)[k] == other;
                if last != name && k == rest.len() {
                    assert(names[names.len() - 1] == other);
                } else {
                    assert(rest[k] == other);
                    assert(rest.contains(other));
                    assert(front.contains(other));
                    let i = choose|i: int| 0 <= i < front.len() && front[i] == other;
                    assert(names[i] == other);
                }
            }
        }
        if last != name {
            if rest.push(last).contains(name) {
                let k = choose|k: int| 0 <= k < rest.len() + 1 && rest.push(last)[k] == name;
                assert(rest[k] == name);
                assert(rest.contains(name));
            }
            if distinct(names) {
                assert(distinct(front)) by {
                    assert forall|i: int, j: int| 0 <= i < j < front.len() implies front[i]
                        != front[j] by {
                        assert(front[i] == names[i] && front[j] == names[j]);
                    }
                }
                assert forall|i: int, j: int| 0 <= i < j < rest.len() + 1 implies rest.push(
                    last,
                )[i] != rest.push(last)[j] by {
                    if j == rest.len() {
                        if rest[i] == last {
                            assert(rest.contains(last));
                            assert(front.contains(last));
                            let m = choose|m: int| 0 <= m < front.len() && front[m] == last;
                            assert(names[m] == names[names.len() - 1]);
                        }
                    }
                }
            }
        } else if distinct(names) {
            assert(distinct(front)) by {
                assert forall|i: int, j: int| 0 <= i < j < front.len() implies front[i]
                    != front[j] by {
                    assert(front[i] == names[i] && front[j] == names[j]);
                }
            }
        }
    }
}

impl LocaleSelection {
    /// The locales chosen, in the order they were chosen in.
    pub closed spec fn locales(self) -> Seq<Seq<char>> {
        self.selected_locales.deep_view()
    }

    /// Whether the choice can be installed.
    pub closed spec fn valid(self) -> bool {
        self.is_valid
    }

    /// No locale is chosen twice.
    #[verifier::type_invariant]
    pub closed spec fn well_formed(self) -> bool {
        distinct(self.selected_locales.deep_view())
    }

    /// No locale chosen, and that is valid.
    pub fn new() -> (r: Self)
        ensures
            r.locales() == Seq::<Seq<char>>::empty(),
            r.valid(),
    {
        let selected_locales: Vec<String> = Vec::new();
        assert(selected_locales.deep_view() =~= Seq::<Seq<char>>::empty());
        Self { selected_locales, is_valid: true }
    }

    pub fn set_valid(&mut self, valid: bool)
        ensures
            final(self).valid() == valid,
            final(self).locales() == old(self).locales(),
    {
        proof {
            use_type_invariant(&*self);
        }
        self.is_valid = valid;
    }

    pub fn is_valid(&self) -> (r: bool)
        ensures
            r == self.valid(),
    {
        self.is_valid
    }

    /// The locales chosen.
    pub fn additional_locales(&self) -> (r: Vec<String>)
        ensures
            r.deep_view() == self.locales(),
            distinct(r.deep_view()),
    {
        proof {
            use_type_invariant(self);
        }
        let mut r: Vec<String> = Vec::new();
        let mut i: usize = 0;
        while i < self.selected_locales.len()
            invariant
                i <= self.selected_locales.len(),
                r.len() == i,
                forall|k: int| 0 <= k < i ==> r[k]@ == self.selected_locales[k]@,
            decreases self.selected_locales.len() - i,
        {
            r.push(self.selected_locales[i].clone());
            i = i + 1;
        }
        assert(r.deep_view() =~= self.selected_locales.deep_view());
        r
    }

    /// Whether `locale_name` is among the locales chosen.
    fn holds(&self, locale_name: &str) -> (r: bool)
        ensures
            r == self.locales().contains(locale_name@),
    {
        let mut i: usize = 0;
        while i < self.selected_locales.len()
            invariant
                i <= self.selected_locales.len(),
                forall|k: int| 0 <= k < i ==> self.selected_locales.deep_view()[k] != locale_name@,
            decreases self.selected_locales.len() - i,
        {
            if str_equal(self.selected_locales[i].as_str(), locale_name) {
                assert(self.selected_locales.deep_view()[i as int] == locale_name@);
                return true;
            }
            i = i + 1;
        }
        false
    }

    /// Chooses `locale_name`. A locale that is chosen already is not chosen
    /// again; a new one comes last. The choice is valid afterwards.
    pub fn add_additional_locale(&mut self, locale_name: &str)
        ensures
            final(self).locales() == if old(self).locales().contains(locale_name@) {
                old(self).locales()
            } else {
                old(self).locales().push(locale_name@)
            },
            !old(self).locales().contains(locale_name@) ==> final(self).valid(),
            old(self).locales().contains(locale_name@) ==> final(self).valid() == old(self).valid(),
    {
        proof {
            use_type_invariant(&*self);
        }
        if self.holds(locale_name) {
            return ;
        }
        let ghost before = self.selected_locales.deep_view();
        let mut chosen = self.additional_locales();
        chosen.push(String::from_str(locale_name));
        proof {
            let after = chosen.deep_view();
            assert(after =~= before.push(locale_name@));
            assert forall|i: int, j: int| 0 <= i < j < after.len() implies after[i] != after[j] by {
                if j == before.len() {
                    if after[i] == locale_name@ {
                        assert(before[i] == locale_name@);
                        assert(before.contains(locale_name@));
                    }
                } else {
                    assert(after[i] == before[i] && after[j] == before[j]);
                }
            }
        }
        self.selected_locales = chosen;
        self.is_valid = true;
    }

    /// Takes `locale_name` back. The other locales stay, in their order. The
    /// choice is valid afterwards.
    pub fn remove_additional_locale(&mut self, locale_name: &str)
        ensures
            final(self).locales() == without(old(self).locales(), locale_name@),
            final(self).valid(),
    {
        proof {
            use_type_invariant(&*self);
        }
        let ghost before = self.selected_locales.deep_view();
        let mut kept: Vec<String> = Vec::new();
        let mut i: usize = 0;
        assert(before.take(0) =~= Seq::<Seq<char>>::empty());
        while i < self.selected_locales.len()
            invariant
                i <= self.selected_locales.len(),
                before == self.selected_locales.deep_view(),
                kept.deep_view() == without(before.take(i as int), locale_name@),
            decreases self.selected_locales.len() - i,
        {
            let ghost sofar = kept.deep_view();
            assert(before.take(i + 1).drop_last() =~= before.take(i as int));
            assert(before.take(i + 1).last() == self.selected_locales[i as int]@);
            if !str_equal(self.selected_locales[i].as_str(), locale_name) {
                kept.push(self.selected_locales[i].clone());
                assert(kept.deep_view() =~= sofar.push(self.selected_locales[i as int]@));
            }
            i = i + 1;
        }
        assert(before.take(i as int) =~= before);
        proof {
            lemma_without(before, locale_name@);
        }
        self.selected_locales = kept;
        self.is_valid = true;
    }

    /// Back to no locale chosen.
    pub fn reset(&mut self)
        ensures
            final(self).locales() == Seq::<Seq<char>>::empty(),
            final(self).valid(),
    {
        let none: Vec<String> = Vec::new();
        assert(none.deep_view() =~= Seq::<Seq<char>>::empty());
        self.selected_locales = none;
        self.is_valid = true;
    }
}

/// What the user chose for the keyboard.
#[derive(Debug, Clone, PartialEq, Eq)]
pub struct KeyboardSelection {
    pub country: String,
    pub country_shorthand: String,
    pub variant: String,
}

/// Mathematical model of a [`KeyboardSelection`].
#[verifier::ext_equal]
pub struct KeyboardSelectionView {
    pub country: Seq<char>,
    pub country_shorthand: Seq<char>,
    pub variant: Seq<char>,
}

impl View for KeyboardSelection {
    type V = KeyboardSelectionView;

    open spec fn view(&self) -> KeyboardSelectionView {
        KeyboardSelectionView {
            country: self.country@,
            country_shorthand: self.country_shorthand@,
            variant: self.variant@,
        }
    }
}

/// One variant of a keyboard layout, as a row of the list shows it.
#[derive(Debug, Clone, PartialEq, Eq)]
pub struct KeyboardVariant {
    layout: String,
    variant: String,
    country: String,
    country_shorthand: String,
}

impl KeyboardVariant {
    /// The layout that the variant belongs to.
    pub closed spec fn spec_layout(self) -> Seq<char> {
        self.layout@
    }

    /// What the variant stands for when it is chosen.
    pub closed spec fn selection(self) -> KeyboardSelectionView {
        KeyboardSelectionView {
            country: self.country@,
            country_shorthand: self.country_shorthand@,
            variant: self.variant@,
        }
    }

    /// The subtitle of the variant's row.
    pub open spec fn spec_subtitle(self) -> Seq<char> {
        self.selection().country + " - "@ + self.selection().country_shorthand
    }

    pub fn new(layout: &str, variant: &str, country: &str, country_shorthand: &str) -> (r: Self)
        ensures
            r.spec_layout() == layout@,
            r.selection() == (KeyboardSelectionView {
                country: country@,
                country_shorthand: country_shorthand@,
                variant: variant@,
            }),
    {
        Self {
            layout: String::from_str(layout),
            variant: String::from_str(variant),
            country: String::from_str(country),
            country_shorthand: String::from_str(country_shorthand),
        }
    }

    pub fn layout(&self) -> (r: String)
        ensures
            r@ == self.spec_layout(),
    {
        self.layout.clone()
    }

    pub fn variant(&self) -> (r: String)
        ensures
            r@ == self.selection().variant,
    {
        self.variant.clone()
    }

    pub fn country(&self) -> (r: String)
        ensures
            r@ == self.selection().country,
    {
        self.country.clone()
    }

    pub fn country_shorthand(&self) -> (r: String)
        ensures
            r@ == self.selection().country_shorthand,
    {
        self.country_shorthand.clone()
    }

    /// The subtitle of the variant's row: country and layout.
    pub fn subtitle(&self) -> (r: String)
        ensures
            r@ == self.spec_subtitle(),
    {
        concat3(self.country.as_str(), " - ", self.country_shorthand.as_str())
    }

    /// What choosing this variant chooses.
    pub fn get_selection(&self) -> (r: KeyboardSelection)
        ensures
            r@ == self.selection(),
    {
        KeyboardSelection {
            country: self.country.clone(),
            country_shorthand: self.country_shorthand.clone(),
            variant: self.variant.clone(),
        }
    }
}

/// A keyboard layout with its variants, as the list shows it.
#[derive(Debug, Clone, PartialEq, Eq)]
pub struct KeyboardLayout {
    country: String,
    country_shorthand: String,
    variants: Vec<KeyboardVariant>,
}

impl KeyboardLayout {
    /// The country of the layout.
    pub closed spec fn spec_country(self) -> Seq<char> {
        self.country@
    }

    /// The country in short.
    pub closed spec fn spec_country_shorthand(self) -> Seq<char> {
        self.country_shorthand@
    }

    /// The variants of the layout, in the order of the list.
    pub closed spec fn spec_variants(self) -> Seq<KeyboardVariant> {
        self.variants@
    }

    /// The layout `layout` of `country`, with one variant for each name of
    /// `variants`, in their order.
    pub fn new(country: &str, country_shorthand: &str, layout: &str, variants: &[&str]) -> (r: Self)
        ensures
            r.spec_country() == country@,
            r.spec_country_shorthand() == country_shorthand@,
            r.spec_variants().len() == variants@.len(),
            forall|i: int|
                0 <= i < variants@.len() ==> (#[trigger] r.spec_variants()[i]).spec_layout()
                    == layout@ && r.spec_variants()[i].selection() == (KeyboardSelectionView {
                    country: country@,
                    country_shorthand: country_shorthand@,
                    variant: variants@[i]@,
                }),
    {
        let mut rows: Vec<KeyboardVariant> = Vec::new();
        let mut i: usize = 0;
        while i < variants.len()
            invariant
                i <= variants.len(),
                rows.len() == i,
                forall|k: int|
                    0 <= k < i ==> (#[trigger] rows[k]).spec_layout() == layout@
                        && rows[k].selection() == (KeyboardSelectionView {
                        country: country@,
                        country_shorthand: country_shorthand@,
                        variant: variants@[k]@,
                    }),
            decreases variants.len() - i,
        {
            rows.push(KeyboardVariant::new(layout, variants[i], country, country_shorthand));
            i = i + 1;
        }
        Self {
            country: String::from_str(country),
            country_shorthand: String::from_str(country_shorthand),
            variants: rows,
        }
    }

    pub fn country(&self) -> (r: &String)
        ensures
            r@ == self.spec_country(),
    {
        &self.country
    }

    pub fn country_shorthand(&self) -> (r: &String)
        ensures
            r@ == self.spec_country_shorthand(),
    {
        &self.country_shorthand
    }

    /// The variants of the layout.
    pub fn variants(&self) -> (r: &Vec<KeyboardVariant>)
        ensures
            r@ == self.spec_variants(),
    {
        &self.variants
    }
}

/// What the preview shows of a selection.
#[derive(Debug, Clone, PartialEq, Eq)]
pub struct SelectionPreview {
    pub title: String,
    pub subtitle: String,
    /// The row for the variant, for every variant but `normal`.
    pub variant_row: Option<String>,
    pub description: String,
}

/// The title of the preview's variant row; there is none for `normal`.
pub open spec fn spec_variant_row(variant: Seq<char>) -> Option<Seq<char>> {
    if variant == "normal"@ {
        None
    } else {
        Some("Variant: "@ + variant)
    }
}

/// What the preview shows of `selection`: the country, the layout, the
/// variant unless it is `normal`, and both in one line.
pub fn select_variant(selection: &KeyboardSelection) -> (r: SelectionPreview)
    ensures
        r.title@ == selection@.country,
        r.subtitle@ == "Layout: "@ + selection@.country_shorthand,
        r.variant_row is Some <==> spec_variant_row(selection@.variant) is Some,
        r.variant_row is Some ==> Some(r.variant_row->0@) == spec_variant_row(selection@.variant),
        r.description@ == "Current selection: "@ + selection@.country_shorthand + " - "@
            + selection@.variant,
{
    let variant_row = if str_equal(selection.variant.as_str(), "normal") {
        None
    } else {
        Some(String::from_str("Variant: ").concat(selection.variant.as_str()))
    };
    SelectionPreview {
        title: selection.country.clone(),
        subtitle: String::from_str("Layout: ").concat(selection.country_shorthand.as_str()),
        variant_row,
        description: String::from_str("Current selection: ").concat(
            selection.country_shorthand.as_str(),
        ).concat(" - ").concat(selection.variant.as_str()),
    }
}

/// The keymap's name for a layout in a variant: the layout alone for the
/// variant called `normal`, else both with a plus sign between them.
pub open spec fn spec_keymap_name(layout: Seq<char>, variant: Seq<char>) -> Seq<char> {
    if variant == "normal"@ {
        layout
    } else {
        layout + "+"@ + variant
    }
}

/// The program that sets the layout under Wayland.
pub open spec fn spec_set_wayland_layout(layout: Seq<char>, variant: Seq<char>) -> InvocationView {
    spec_exec("localectl"@, seq!["set-keymap"@, spec_keymap_name(layout, variant)])
}

/// The program that sets the layout under X.
pub open spec fn spec_set_xorg_layout(layout: Seq<char>, variant: Seq<char>) -> InvocationView {
    if variant == "normal"@ {
        spec_exec("setxkbmap"@, seq![layout])
    } else {
        spec_exec("setxkbmap"@, seq![layout, "-variant"@, variant])
    }
}

/// What a variant is called in a list: `Default` for the variant `normal`,
/// its own name for every other.
pub open spec fn spec_variant_label(variant: Seq<char>) -> Seq<char> {
    if variant == "normal"@ {
        "Default"@
    } else {
        variant
    }
}

/// Whether a row is shown for a search: every row for an empty search, else
/// those whose title or subtitle holds the search text, case left aside.
pub open spec fn spec_row_matches(
    query: Seq<char>,
    title: Seq<char>,
    subtitle: Seq<char>,
) -> bool {
    query.len() == 0 || contains(lowercase_of(title), lowercase_of(query)) || contains(
        lowercase_of(subtitle),
        lowercase_of(query),
    )
}

/// The program that sets layout and variant under Wayland.
pub fn set_wayland_layout(layout: &str, variant: &str) -> (r: Invocation)
    ensures
        r@ == spec_set_wayland_layout(layout@, variant@),
{
    let keymap = if str_equal(variant, "normal") {
        String::from_str(layout)
    } else {
        concat3(layout, "+", variant)
    };
    let args = ["set-keymap", keymap.as_str()];
    assert(views(args@) =~= seq!["set-keymap"@, spec_keymap_name(layout@, variant@)]);
    exec("localectl", &args)
}

/// The program that sets layout and variant under X.
pub fn set_xorg_layout(layout: &str, variant: &str) -> (r: Invocation)
    ensures
        r@ == spec_set_xorg_layout(layout@, variant@),
{
    if str_equal(variant, "normal") {
        let args = [layout];
        assert(views(args@) =~= seq![layout@]);
        exec("setxkbmap", &args)
    } else {
        let args = [layout, "-variant", variant];
        assert(views(args@) =~= seq![layout@, "-variant"@, variant@]);
        exec("setxkbmap", &args)
    }
}

/// The program that sets layout and variant for the session that runs.
pub fn set_keyboard_layout(is_wayland: bool, layout: &str, variant: &str) -> (r: Invocation)
    ensures
        r@ == if is_wayland {
            spec_set_wayland_layout(layout@, variant@)
        } else {
            spec_set_xorg_layout(layout@, variant@)
        },
{
    if is_wayland {
        set_wayland_layout(layout, variant)
    } else {
        set_xorg_layout(layout, variant)
    }
}

/// Whether the layout was set: if the program could not be run, the host's
/// words are the error; if it failed, its own.
pub fn layout_result(output: &Result<ProgramOutput, HostError>) -> (r: Result<(), String>)
    ensures
        r is Ok <==> output is Ok && output->Ok_0.success,
        output is Err ==> r is Err && r->Err_0@ == output->Err_0.message@,
        output is Ok && !output->Ok_0.success ==> r is Err && r->Err_0@ == output->Ok_0.stderr@,
{
    match output {
        Err(e) => Err(e.message.clone()),
        Ok(out) => if out.success {
            Ok(())
        } else {
            Err(out.stderr.clone())
        },
    }
}

/// What the variant `variant` is called in a list.
pub fn variant_label(variant: &str) -> (r: String)
    ensures
        r@ == spec_variant_label(variant@),
{
    if str_equal(variant, "normal") {
        String::from_str("Default")
    } else {
        String::from_str(variant)
    }
}

/// Whether a row shows for a search, given texts in lower case.
pub fn lowered_row_matches(query: &str, title: &str, subtitle: &str) -> (r: bool)
    ensures
        r == (contains(title@, query@) || contains(subtitle@, query@)),
{
    str_contains(title, query) || str_contains(subtitle, query)
}

/// Whether a row with `title` and `subtitle` shows for the search `query`.
pub fn row_matches(query: &str, title: &str, subtitle: &str) -> (r: bool)
    ensures
        r == spec_row_matches(query@, title@, subtitle@),
{
    if query.is_empty() {
        return true;
    }
    let q = lowercase(query);
    let t = lowercase(title);
    let s = lowercase(subtitle);
    lowered_row_matches(q.as_str(), t.as_str(), s.as_str())
}

} // verus!
