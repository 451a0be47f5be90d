//! The font style struct: Gecko's `nsStyleFont` and its accessors.
use vstd::prelude::*;
use vstd::string::StrSliceExecFns;
use std::sync::Arc;
use crate::units::Au;
use crate::keywords::{FontStyle, spec_font_style_to_gecko};
use crate::consts;

verus! {

/// A generic font family keyword.
#[derive(Clone, Copy, Debug, PartialEq, Eq, Structural)]
pub enum GenericFamily {
    Serif,
    SansSerif,
    Cursive,
    Fantasy,
    Monospace,
}

/// A computed font family: a family name, or a generic family.
#[derive(Debug)]
pub enum FontFamily {
    FamilyName(String),
    Generic(GenericFamily),
}

impl Clone for FontFamily {
    fn clone(&self) -> (r: Self)
        ensures
            spec_family_entry(r) == spec_family_entry(*self),
    {
        match self {
            FontFamily::FamilyName(name) => FontFamily::FamilyName(name.clone()),
            FontFamily::Generic(g) => FontFamily::Generic(*g),
        }
    }
}

/// Gecko's `FontFamilyType`.
#[derive(Clone, Copy, Debug, PartialEq, Eq, Structural)]
pub enum FontFamilyType {
    Named,
    Serif,
    SansSerif,
    Monospace,
    Cursive,
    Fantasy,
}

/// An entry of Gecko's `FontFamilyList`: a type and, for a named family, its name.
#[derive(Debug)]
pub struct FontFamilyName {
    pub family_type: FontFamilyType,
    pub name: String,
}

impl Clone for FontFamilyName {
    fn clone(&self) -> (r: Self)
        ensures
            r.family_type == self.family_type,
            r.name@ == self.name@,
    {
        FontFamilyName { family_type: self.family_type, name: self.name.clone() }
    }
}

/// Gecko's `nsFont`, as far as the style system reads and writes it.
#[derive(Debug)]
pub struct NsFont {
    pub fontlist: Vec<FontFamilyName>,
    pub style: u8,
    pub weight: u16,
    pub size: i32,
}

/// Gecko's `nsStyleFont`, as far as the style system reads and writes it.
#[derive(Debug)]
pub struct NsStyleFont {
    pub font: NsFont,
    /// The computed font size; `font.size` is the size shown, which would
    /// take zooming into account.
    pub size: i32,
}

/// The font style struct.
#[derive(Debug)]
pub struct GeckoFont {
    pub gecko: NsStyleFont,
}

/// A computed `font-weight`.
#[derive(Clone, Copy, Debug, PartialEq, Eq, Structural)]
pub enum FontWeight {
    Weight100,
    Weight200,
    Weight300,
    Weight400,
    Weight500,
    Weight600,
    Weight700,
    Weight800,
    Weight900,
}

/// The number of a font weight.
pub open spec fn spec_font_weight_value(w: FontWeight) -> u16 {
    match w {
        FontWeight::Weight100 => 100,
        FontWeight::Weight200 => 200,
        FontWeight::Weight300 => 300,
        FontWeight::Weight400 => 400,
        FontWeight::Weight500 => 500,
        FontWeight::Weight600 => 600,
        FontWeight::Weight700 => 700,
        FontWeight::Weight800 => 800,
        FontWeight::Weight900 => 900,
    }
}

/// Whether a stored weight is the number of a font weight.
pub open spec fn is_font_weight_value(n: u16) -> bool {
    100 <= n <= 900 && n % 100 == 0
}

/// The Gecko family type of a generic family.
pub open spec fn spec_generic_type(g: GenericFamily) -> FontFamilyType {
    match g {
        GenericFamily::Serif => FontFamilyType::Serif,
        GenericFamily::SansSerif => FontFamilyType::SansSerif,
        GenericFamily::Cursive => FontFamilyType::Cursive,
        GenericFamily::Fantasy => FontFamilyType::Fantasy,
        GenericFamily::Monospace => FontFamilyType::Monospace,
    }
}

/// The Gecko list entry, as a type and name, for a computed family: a
/// generic family has no name.
pub open spec fn spec_family_entry(f: FontFamily) -> (FontFamilyType, Seq<char>) {
    match f {
        FontFamily::FamilyName(name) => (FontFamilyType::Named, name@),
        FontFamily::Generic(g) => (spec_generic_type(g), Seq::empty()),
    }
}

/// A Gecko list entry as a type and name.
pub open spec fn spec_entry_view(e: FontFamilyName) -> (FontFamilyType, Seq<char>) {
    (e.family_type, e.name@)
}

/// A Gecko family list as types and names.
pub open spec fn spec_list_view(l: Seq<FontFamilyName>) -> Seq<(FontFamilyType, Seq<char>)> {
    l.map_values(|e: FontFamilyName| spec_entry_view(e))
}

/// The Gecko family type of a generic family.
pub fn generic_type(g: GenericFamily) -> (r: FontFamilyType)
    ensures
        r == spec_generic_type(g),
{
    match g {
        GenericFamily::Serif => FontFamilyType::Serif,
        GenericFamily::SansSerif => FontFamilyType::SansSerif,
        GenericFamily::Cursive => FontFamilyType::Cursive,
        GenericFamily::Fantasy => FontFamilyType::Fantasy,
        GenericFamily::Monospace => FontFamilyType::Monospace,
    }
}

impl FontWeight {
    /// The number of this weight.
    pub fn value(self) -> (r: u16)
        ensures
            r == spec_font_weight_value(self),
    {
        match self {
            FontWeight::Weight100 => 100,
            FontWeight::Weight200 => 200,
            FontWeight::Weight300 => 300,
            FontWeight::Weight400 => 400,
            FontWeight::Weight500 => 500,
            FontWeight::Weight600 => 600,
            FontWeight::Weight700 => 700,
            FontWeight::Weight800 => 800,
            FontWeight::Weight900 => 900,
        }
    }
}

impl GeckoFont {
    /// Whether the struct holds the initial values.
    pub open spec fn is_initial(self) -> bool {
        &&& spec_list_view(self.gecko.font.fontlist@) == seq![(FontFamilyType::Serif, Seq::<char>::empty())]
        &&& self.gecko.font.style == consts::NS_FONT_STYLE_NORMAL
        &&& self.gecko.font.weight == 400
        &&& self.gecko.font.size == 960
        &&& self.gecko.size == 960
    }

    /// The initial font struct: the generic serif family, normal style,
    /// weight 400 and a size of 16px.
    pub fn initial() -> (r: Arc<GeckoFont>)
        ensures
            r.is_initial(),
    {
        let mut fontlist: Vec<FontFamilyName> = Vec::new();
        fontlist.push(FontFamilyName { family_type: FontFamilyType::Serif, name: String::new() });
        let r = GeckoFont {
            gecko: NsStyleFont {
                font: NsFont { fontlist, style: consts::NS_FONT_STYLE_NORMAL, weight: 400, size: 960 },
                size: 960,
            },
        };
        assert(spec_list_view(r.gecko.font.fontlist@) =~= seq![(FontFamilyType::Serif, Seq::<char>::empty())]);
        Arc::new(r)
    }

    /// The Gecko struct.
    pub fn get_gecko(&self) -> (r: &NsStyleFont)
        ensures
            *r == self.gecko,
    {
        &self.gecko
    }

    /// Sets `font-family`: the Gecko list is emptied and each family is
    /// appended, by name or by generic type.
    pub fn set_font_family(&mut self, v: Vec<FontFamily>)
        ensures
            spec_list_view(final(self).gecko.font.fontlist@)
                == v@.map_values(|f: FontFamily| spec_family_entry(f)),
            final(self).gecko.font.style == old(self).gecko.font.style,
            final(self).gecko.font.weight == old(self).gecko.font.weight,
            final(self).gecko.font.size == old(self).gecko.font.size,
            final(self).gecko.size == old(self).gecko.size,
    {
        self.gecko.font.fontlist.clear();
        let n = v.len();
        for i in 0..n
            invariant
                n == v@.len(),
                self.gecko.font.fontlist@.len() == i,
                spec_list_view(self.gecko.font.fontlist@)
                    == v@.take(i as int).map_values(|f: FontFamily| spec_family_entry(f)),
                self.gecko.font.style == old(self).gecko.font.style,
                self.gecko.font.weight == old(self).gecko.font.weight,
                self.gecko.font.size == old(self).gecko.font.size,
                self.gecko.size == old(self).gecko.size,
        {
            let entry = match &v[i] {
                FontFamily::FamilyName(name) => FontFamilyName { family_type: FontFamilyType::Named, name: name.clone() },
                FontFamily::Generic(g) => FontFamilyName { family_type: generic_type(*g), name: String::new() },
            };
            assert(spec_entry_view(entry) == spec_family_entry(v@[i as int]));
            let ghost before = self.gecko.font.fontlist@;
            self.gecko.font.fontlist.push(entry);
            assert(self.gecko.font.fontlist@ == before.push(entry));
            assert(v@.take(i + 1) =~= v@.take(i as int).push(v@[i as int]));
            assert forall|j: int| 0 <= j < i implies #[trigger] spec_entry_view(self.gecko.font.fontlist@[j])
                == spec_family_entry(v@[j]) by {
                assert(self.gecko.font.fontlist@[j] == before[j]);
                assert(spec_list_view(before)[j] == spec_entry_view(before[j]));
                assert(v@.take(i as int).map_values(|f: FontFamily| spec_family_entry(f))[j] == spec_family_entry(v@[j]));
            }
            assert(spec_list_view(self.gecko.font.fontlist@) =~= v@.take(i + 1).map_values(
                |f: FontFamily| spec_family_entry(f)));
        }
        assert(v@.take(n as int) =~= v@);
    }

    /// Copies `font-family` of another struct.
    pub fn copy_font_family_from(&mut self, other: &Self)
        ensures
            spec_list_view(final(self).gecko.font.fontlist@) == spec_list_view(other.gecko.font.fontlist@),
            final(self).gecko.font.style == old(self).gecko.font.style,
            final(self).gecko.font.weight == old(self).gecko.font.weight,
            final(self).gecko.font.size == old(self).gecko.font.size,
            final(self).gecko.size == old(self).gecko.size,
    {
        let mut list: Vec<FontFamilyName> = Vec::new();
        let n = other.gecko.font.fontlist.len();
        for i in 0..n
            invariant
                n == other.gecko.font.fontlist@.len(),
                list@.len() == i,
                spec_list_view(list@) == spec_list_view(other.gecko.font.fontlist@.take(i as int)),
        {
            let e = other.gecko.font.fontlist[i].clone();
            assert(spec_entry_view(e) == spec_entry_view(other.gecko.font.fontlist@[i as int]));
            let ghost before = list@;
            list.push(e);
            assert forall|j: int| 0 <= j < i implies #[trigger] spec_entry_view(list@[j])
                == spec_entry_view(other.gecko.font.fontlist@[j]) by {
                assert(list@[j] == before[j]);
                assert(spec_list_view(before)[j] == spec_entry_view(before[j]));
                assert(spec_list_view(other.gecko.font.fontlist@.take(i as int))[j]
                    == spec_entry_view(other.gecko.font.fontlist@[j]));
            }
            assert(other.gecko.font.fontlist@.take(i + 1) =~= other.gecko.font.fontlist@.take(i as int).push(
                other.gecko.font.fontlist@[i as int]));
            assert(spec_list_view(list@) =~= spec_list_view(other.gecko.font.fontlist@.take(i + 1)));
        }
        assert(other.gecko.font.fontlist@.take(n as int) =~= other.gecko.font.fontlist@);
        self.gecko.font.fontlist = list;
    }

    /// Sets `font-style`.
    pub fn set_font_style(&mut self, v: FontStyle)
        ensures
            final(self).gecko.font.style == spec_font_style_to_gecko(v),
            final(self).gecko.font.fontlist == old(self).gecko.font.fontlist,
            final(self).gecko.font.weight == old(self).gecko.font.weight,
            final(self).gecko.font.size == old(self).gecko.font.size,
            final(self).gecko.size == old(self).gecko.size,
    {
        self.gecko.font.style = v.to_gecko();
    }

    /// Copies `font-style` of another struct.
    pub fn copy_font_style_from(&mut self, other: &Self)
        ensures
            final(self).gecko.font.style == other.gecko.font.style,
            final(self).gecko.font.fontlist == old(self).gecko.font.fontlist,
            final(self).gecko.font.weight == old(self).gecko.font.weight,
            final(self).gecko.font.size == old(self).gecko.font.size,
            final(self).gecko.size == old(self).gecko.size,
    {
        self.gecko.font.style = other.gecko.font.style;
    }

    /// Sets `font-size`: both the shown and the computed size.
    pub fn set_font_size(&mut self, v: Au)
        ensures
            final(self).gecko.font.size == v.0,
            final(self).gecko.size == v.0,
            final(self).gecko.font.fontlist == old(self).gecko.font.fontlist,
            final(self).gecko.font.style == old(self).gecko.font.style,
            final(self).gecko.font.weight == old(self).gecko.font.weight,
    {
        self.gecko.font.size = v.0;
        self.gecko.size = v.0;
    }

    /// Copies `font-size` (the shown and the computed size) of another struct.
    pub fn copy_font_size_from(&mut self, other: &Self)
        ensures
            final(self).gecko.font.size == other.gecko.font.size,
            final(self).gecko.size == other.gecko.size,
            final(self).gecko.font.fontlist == old(self).gecko.font.fontlist,
            final(self).gecko.font.style == old(self).gecko.font.style,
            final(self).gecko.font.weight == old(self).gecko.font.weight,
    {
        self.gecko.font.size = other.gecko.font.size;
        self.gecko.size = other.gecko.size;
    }

    /// The computed `font-size`.
    pub fn clone_font_size(&self) -> (r: Au)
        ensures
            r.0 == self.gecko.size,
    {
        Au(self.gecko.size)
    }

    /// Sets `font-weight`.
    pub fn set_font_weight(&mut self, v: FontWeight)
        ensures
            final(self).gecko.font.weight == spec_font_weight_value(v),
            final(self).gecko.font.fontlist == old(self).gecko.font.fontlist,
            final(self).gecko.font.style == old(self).gecko.font.style,
            final(self).gecko.font.size == old(self).gecko.font.size,
            final(self).gecko.size == old(self).gecko.size,
    {
        self.gecko.font.weight = v.value();
    }

    /// Copies `font-weight` of another struct.
    pub fn copy_font_weight_from(&mut self, other: &Self)
        ensures
            final(self).gecko.font.weight == other.gecko.font.weight,
            final(self).gecko.font.fontlist == old(self).gecko.font.fontlist,
            final(self).gecko.font.style == old(self).gecko.font.style,
            final(self).gecko.font.size == old(self).gecko.font.size,
            final(self).gecko.size == old(self).gecko.size,
    {
        self.gecko.font.weight = other.gecko.font.weight;
    }

    /// The computed `font-weight`; the stored weight must be a multiple of
    /// 100 from 100 to 900.
    pub fn clone_font_weight(&self) -> (r: FontWeight)
        requires
            is_font_weight_value(self.gecko.font.weight),
        ensures
            spec_font_weight_value(r) == self.gecko.font.weight,
    {
        let w = self.gecko.font.weight;
        if w == 100 {
            FontWeight::Weight100
        } else if w == 200 {
            FontWeight::Weight200
        } else if w == 300 {
            FontWeight::Weight300
        } else if w == 400 {
            FontWeight::Weight400
        } else if w == 500 {
            FontWeight::Weight500
        } else if w == 600 {
            FontWeight::Weight600
        } else if w == 700 {
            FontWeight::Weight700
        } else if w == 800 {
            FontWeight::Weight800
        } else {
            FontWeight::Weight900
        }
    }

    /// Font hashes are not kept for Gecko structs: this changes nothing.
    pub fn compute_font_hash(&mut self)
        ensures
            final(self).gecko.font.fontlist == old(self).gecko.font.fontlist,
            final(self).gecko.font.style == old(self).gecko.font.style,
            final(self).gecko.font.weight == old(self).gecko.font.weight,
            final(self).gecko.font.size == old(self).gecko.font.size,
            final(self).gecko.size == old(self).gecko.size,
    {
    }
}

impl GeckoFont {
    /// Whether two structs hold the same values.
    pub open spec fn same_as(self, other: Self) -> bool {
        &&& spec_list_view(self.gecko.font.fontlist@) == spec_list_view(other.gecko.font.fontlist@)
        &&& self.gecko.font.style == other.gecko.font.style
        &&& self.gecko.font.weight == other.gecko.font.weight
        &&& self.gecko.font.size == other.gecko.font.size
        &&& self.gecko.size == other.gecko.size
    }
}

impl Clone for GeckoFont {
    fn clone(&self) -> (r: Self)
        ensures
            r.same_as(*self),
    {
        let mut r = GeckoFont {
            gecko: NsStyleFont {
                font: NsFont {
                    fontlist: Vec::new(),
                    style: self.gecko.font.style,
                    weight: self.gecko.font.weight,
                    size: self.gecko.font.size,
                },
                size: self.gecko.size,
            },
        };
        r.copy_font_family_from(self);
        r
    }
}

/// The generic family that a name names, if it names one.
pub open spec fn spec_generic_family_of(name: Seq<char>) -> Option<GenericFamily> {
    if name == "serif"@ {
        Some(GenericFamily::Serif)
    } else if name == "sans-serif"@ {
        Some(GenericFamily::SansSerif)
    } else if name == "cursive"@ {
        Some(GenericFamily::Cursive)
    } else if name == "fantasy"@ {
        Some(GenericFamily::Fantasy)
    } else if name == "monospace"@ {
        Some(GenericFamily::Monospace)
    } else {
        None
    }
}

/// Whether two strings hold the same characters.
fn str_equals(a: &str, b: &str) -> (r: bool)
    ensures
        r == (a@ == b@),
{
    let n = a.unicode_len();
    if n != b.unicode_len() {
        return false;
    }
    let mut i: usize = 0;
    while i < n
        invariant
            n == a@.len(),
            n == b@.len(),
            i <= n,
            forall|k: int| 0 <= k < i ==> a@[k] == b@[k],
        decreases n - i,
    {
        if a.get_char(i) != b.get_char(i) {
            return false;
        }
        i = i + 1;
    }
    assert(a@ =~= b@);
    true
}

/// The generic family that a generic family name names, if it names one.
pub fn generic_family_from_name(name: &str) -> (r: Option<GenericFamily>)
    ensures
        r == spec_generic_family_of(name@),
{
    if str_equals(name, "serif") {
        Some(GenericFamily::Serif)
    } else if str_equals(name, "sans-serif") {
        Some(GenericFamily::SansSerif)
    } else if str_equals(name, "cursive") {
        Some(GenericFamily::Cursive)
    } else if str_equals(name, "fantasy") {
        Some(GenericFamily::Fantasy)
    } else if str_equals(name, "monospace") {
        Some(GenericFamily::Monospace)
    } else {
        None
    }
}

/// Each generic family is listed with the Gecko family type of the same
/// name, and each generic family name names the family of that name.
pub proof fn lemma_generic_family_table()
    ensures
        spec_generic_type(GenericFamily::Serif) == FontFamilyType::Serif,
        spec_generic_type(GenericFamily::SansSerif) == FontFamilyType::SansSerif,
        spec_generic_type(GenericFamily::Cursive) == FontFamilyType::Cursive,
        spec_generic_type(GenericFamily::Fantasy) == FontFamilyType::Fantasy,
        spec_generic_type(GenericFamily::Monospace) == FontFamilyType::Monospace,
        spec_generic_family_of("serif"@) == Some(GenericFamily::Serif),
        spec_generic_family_of("sans-serif"@) == Some(GenericFamily::SansSerif),
        spec_generic_family_of("cursive"@) == Some(GenericFamily::Cursive),
        spec_generic_family_of("fantasy"@) == Some(GenericFamily::Fantasy),
        spec_generic_family_of("monospace"@) == Some(GenericFamily::Monospace),
{
    reveal_strlit("serif");
    reveal_strlit("sans-serif");
    reveal_strlit("cursive");
    reveal_strlit("fantasy");
    reveal_strlit("monospace");
    assert("sans-serif"@.len() != "serif"@.len());
    assert("cursive"@.len() != "serif"@.len() && "cursive"@.len() != "sans-serif"@.len());
    assert("fantasy"@.len() != "serif"@.len() && "fantasy"@.len() != "sans-serif"@.len());
    assert("fantasy"@[0] != "cursive"@[0]);
    assert("monospace"@.len() != "serif"@.len() && "monospace"@.len() != "sans-serif"@.len());
    assert("monospace"@.len() != "cursive"@.len() && "monospace"@.len() != "fantasy"@.len());
}

/// A generic family is never listed as a named family, and distinct generic
/// families are listed with distinct types.
pub proof fn lemma_generic_type_distinct(a: GenericFamily, b: GenericFamily)
    ensures
        spec_generic_type(a) != FontFamilyType::Named,
        a != b ==> spec_generic_type(a) != spec_generic_type(b),
{
}

/// Each font weight is the number 100 times its rank.
pub proof fn lemma_font_weight_table()
    ensures
        spec_font_weight_value(FontWeight::Weight100) == 100,
        spec_font_weight_value(FontWeight::Weight200) == 200,
        spec_font_weight_value(FontWeight::Weight300) == 300,
        spec_font_weight_value(FontWeight::Weight400) == 400,
        spec_font_weight_value(FontWeight::Weight500) == 500,
        spec_font_weight_value(FontWeight::Weight600) == 600,
        spec_font_weight_value(FontWeight::Weight700) == 700,
        spec_font_weight_value(FontWeight::Weight800) == 800,
        spec_font_weight_value(FontWeight::Weight900) == 900,
{
}

/// Setting a font weight and reading it back gives the weight.
pub proof fn lemma_font_weight_roundtrip(w: FontWeight)
    ensures
        is_font_weight_value(spec_font_weight_value(w)),
{
}

/// Two weights with the same number are the same weight.
pub proof fn lemma_font_weight_injective(a: FontWeight, b: FontWeight)
    ensures
        spec_font_weight_value(a) == spec_font_weight_value(b) ==> a == b,
{
}

} // verus!
