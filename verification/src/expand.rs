//! Normalization utilities.
//!
//! [`expand_address`] and [`NormalizeOptions::expand`] check a request and
//! open an [`ExpansionSession`], which asks for the native calls that the
//! request takes, one at a time, and turns what the native normalizer
//! returns into a [`NormalizedAddress`].
use vstd::prelude::*;
use vstd::string::*;

use crate::error::{has_nul, NulError, RuntimeError, SetupError};
use crate::ffi;
use crate::ffi::NativeCall;
use crate::session::{Phase, Reply};
use crate::{LibModules, Lifecycle, LifecycleState};

verus! {

/// Whether `bits` hold every bit of `flags`.
pub open spec fn holds(bits: u32, flags: u32) -> bool {
    bits & flags == flags
}

/// Bit set of active string options.
#[derive(Clone, Copy, Debug, Hash, PartialEq, Eq, PartialOrd, Ord)]
pub struct StringOptions {
    bits: u32,
}

impl View for StringOptions {
    type V = u32;

    /// The bits of the set, one for each option that it holds.
    closed spec fn view(&self) -> u32 {
        self.bits
    }
}

impl StringOptions {
    pub const TRANSLITERATE: u32 = 0x00000001;

    pub const STRIP_ACCENTS: u32 = 0x00000002;

    pub const DECOMPOSE: u32 = 0x00000004;

    pub const LOWERCASE: u32 = 0x00000008;

    pub const TRIM_STRING: u32 = 0x00000010;

    pub const DROP_PARENTHETICALS: u32 = 0x00000020;

    pub const REPLACE_NUMERIC_HYPHENS: u32 = 0x00000040;

    pub const DELETE_NUMERIC_HYPHENS: u32 = 0x00000080;

    pub const SPLIT_ALPHA_FROM_NUMERIC: u32 = 0x00000100;

    pub const REPLACE_WORD_HYPHENS: u32 = 0x00000200;

    pub const DELETE_WORD_HYPHENS: u32 = 0x00000400;

    pub const DELETE_FINAL_PERIODS: u32 = 0x00000800;

    pub const DELETE_ACRONYM_PERIODS: u32 = 0x00001000;

    pub const DROP_ENGLISH_POSSESSIVES: u32 = 0x00002000;

    pub const DELETE_APOSTROPHES: u32 = 0x00004000;

    pub const EXPAND_NUMEX: u32 = 0x00008000;

    pub const ROMAN_NUMERALS: u32 = 0x00010000;

    pub const LATIN_ASCII: u32 = 0x00020000;

    /// The bits of all the options.
    pub const ALL: u32 = 0x0003ffff;

    #[verifier::type_invariant]
    spec fn well_formed(&self) -> bool {
        self.bits & Self::ALL == self.bits
    }

    /// Whether the set holds every option of `flags`.
    pub open spec fn has(&self, flags: u32) -> bool {
        holds(self@, flags)
    }

    /// The set that holds no option.
    pub fn empty() -> (set: StringOptions)
        ensures
            set@ == 0,
    {
        assert(0u32 & 0x3ffff == 0u32) by (bit_vector);
        StringOptions { bits: 0 }
    }

    /// The set that holds every option.
    pub fn all() -> (set: StringOptions)
        ensures
            set@ == Self::ALL,
    {
        assert(0x3ffffu32 & 0x3ffff == 0x3ffffu32) by (bit_vector);
        StringOptions { bits: Self::ALL }
    }

    /// The bits of the set. None lies outside [`StringOptions::ALL`].
    pub fn bits(&self) -> (bits: u32)
        ensures
            bits == self@,
            bits & Self::ALL == bits,
    {
        proof {
            use_type_invariant(self);
        }
        self.bits
    }

    /// The set with the given bits, unless one of them stands for no option.
    pub fn from_bits(bits: u32) -> (set: Option<StringOptions>)
        ensures
            set is Some <==> bits & Self::ALL == bits,
            set matches Some(made) ==> made@ == bits,
    {
        if bits & Self::ALL == bits {
            Some(StringOptions { bits })
        } else {
            None
        }
    }

    /// The set with the given bits, without those that stand for no option.
    pub fn from_bits_truncate(bits: u32) -> (set: StringOptions)
        ensures
            set@ == bits & Self::ALL,
    {
        assert((bits & 0x3ffff) & 0x3ffff == bits & 0x3ffff) by (bit_vector);
        StringOptions { bits: bits & Self::ALL }
    }

    /// Whether the set holds no option.
    pub fn is_empty(&self) -> (empty: bool)
        ensures
            empty == (self@ == 0),
    {
        self.bits == 0
    }

    /// Whether the set holds every option of `other`.
    pub fn contains(&self, other: StringOptions) -> (held: bool)
        ensures
            held == self.has(other@),
    {
        self.bits & other.bits == other.bits
    }

    /// Adds the options of `other` to the set.
    pub fn insert(&mut self, other: StringOptions)
        ensures
            final(self)@ == old(self)@ | other@,
    {
        proof {
            use_type_invariant(&*self);
            use_type_invariant(&other);
        }
        let a = self.bits;
        let b = other.bits;
        assert((a | b) & 0x3ffff == a | b) by (bit_vector)
            requires
                a & 0x3ffff == a,
                b & 0x3ffff == b,
        ;
        self.bits = a | b;
    }

    /// The set of the options of `self` and of `other`.
    pub fn union(self, other: StringOptions) -> (set: StringOptions)
        ensures
            set@ == self@ | other@,
    {
        let mut set = self;
        set.insert(other);
        set
    }

    fn is_set(&self, flag: u32) -> (set: bool)
        ensures
            set == self.has(flag),
    {
        self.bits & flag == flag
    }
}

impl Default for StringOptions {
    fn default() -> (set: StringOptions)
        ensures
            set@ == 0,
    {
        StringOptions::empty()
    }
}

/// Bit set of active address components in normalization options.
#[derive(Clone, Copy, Debug, Hash, PartialEq, Eq, PartialOrd, Ord)]
pub struct AddressComponents {
    bits: u16,
}

impl View for AddressComponents {
    type V = u16;

    /// The bits of the set, one for each component that it holds.
    closed spec fn view(&self) -> u16 {
        self.bits
    }
}

impl AddressComponents {
    pub const NONE: u16 = 0;

    pub const ANY: u16 = 0x0001;

    pub const NAME: u16 = 0x0002;

    pub const HOUSE_NUMBER: u16 = 0x0004;

    pub const STREET: u16 = 0x0008;

    pub const UNIT: u16 = 0x0010;

    pub const LEVEL: u16 = 0x0020;

    pub const STAIRCASE: u16 = 0x0040;

    pub const ENTRANCE: u16 = 0x0080;

    pub const CATEGORY: u16 = 0x0100;

    pub const NEAR: u16 = 0x0200;

    pub const TOPONYM: u16 = 0x2000;

    pub const POSTAL_CODE: u16 = 0x4000;

    pub const PO_BOX: u16 = 0x8000;

    /// The bits of all the components.
    pub const ALL: u16 = 0xe3ff;

    /// The bits that stand for no component and stay zero.
    pub const RESERVED: u16 = 0x1c00;

    #[verifier::type_invariant]
    spec fn well_formed(&self) -> bool {
        self.bits & Self::ALL == self.bits
    }

    /// Whether the set holds every component of `flags`.
    pub open spec fn has(&self, flags: u16) -> bool {
        self@ & flags == flags
    }

    /// The set that holds no component.
    pub fn empty() -> (set: AddressComponents)
        ensures
            set@ == 0,
    {
        assert(0u16 & 0xe3ff == 0u16) by (bit_vector);
        AddressComponents { bits: 0 }
    }

    /// The set that holds every component.
    pub fn all() -> (set: AddressComponents)
        ensures
            set@ == Self::ALL,
    {
        assert(0xe3ffu16 & 0xe3ff == 0xe3ffu16) by (bit_vector);
        AddressComponents { bits: Self::ALL }
    }

    /// The bits of the set. None lies outside [`AddressComponents::ALL`],
    /// so the reserved bits are zero.
    pub fn bits(&self) -> (bits: u16)
        ensures
            bits == self@,
            bits & Self::ALL == bits,
            bits & Self::RESERVED == 0,
    {
        proof {
            use_type_invariant(self);
        }
        let bits = self.bits;
        assert(bits & 0x1c00 == 0) by (bit_vector)
            requires
                bits & 0xe3ff == bits,
        ;
        bits
    }

    /// The set with the given bits, unless one of them stands for no
    /// component.
    pub fn from_bits(bits: u16) -> (set: Option<AddressComponents>)
        ensures
            set is Some <==> bits & Self::ALL == bits,
            set matches Some(made) ==> made@ == bits,
    {
        if bits & Self::ALL == bits {
            Some(AddressComponents { bits })
        } else {
            None
        }
    }

    /// The set with the given bits, without those that stand for no
    /// component.
    pub fn from_bits_truncate(bits: u16) -> (set: AddressComponents)
        ensures
            set@ == bits & Self::ALL,
    {
        assert((bits & 0xe3ff) & 0xe3ff == bits & 0xe3ff) by (bit_vector);
        AddressComponents { bits: bits & Self::ALL }
    }

    /// Whether the set holds no component.
    pub fn is_empty(&self) -> (empty: bool)
        ensures
            empty == (self@ == 0),
    {
        self.bits == 0
    }

    /// Whether the set holds every component of `other`.
    pub fn contains(&self, other: AddressComponents) -> (held: bool)
        ensures
            held == self.has(other@),
    {
        self.bits & other.bits == other.bits
    }

    /// Adds the components of `other` to the set.
    pub fn insert(&mut self, other: AddressComponents)
        ensures
            final(self)@ == old(self)@ | other@,
    {
        proof {
            use_type_invariant(&*self);
            use_type_invariant(&other);
        }
        let a = self.bits;
        let b = other.bits;
        assert((a | b) & 0xe3ff == a | b) by (bit_vector)
            requires
                a & 0xe3ff == a,
                b & 0xe3ff == b,
        ;
        self.bits = a | b;
    }

    /// The set of the components of `self` and of `other`.
    pub fn union(self, other: AddressComponents) -> (set: AddressComponents)
        ensures
            set@ == self@ | other@,
    {
        let mut set = self;
        set.insert(other);
        set
    }
}

impl Default for AddressComponents {
    fn default() -> (set: AddressComponents)
        ensures
            set@ == 0,
    {
        AddressComponents::empty()
    }
}


/// Whether each string option of `native` is on exactly where `bits` holds
/// the flag of that option.
#[verifier::opaque]
pub open spec fn reflects(native: ffi::libpostal_normalize_options, bits: u32) -> bool {
    &&& native.latin_ascii == holds(bits, StringOptions::LATIN_ASCII)
    &&& native.transliterate == holds(bits, StringOptions::TRANSLITERATE)
    &&& native.strip_accents == holds(bits, StringOptions::STRIP_ACCENTS)
    &&& native.decompose == holds(bits, StringOptions::DECOMPOSE)
    &&& native.lowercase == holds(bits, StringOptions::LOWERCASE)
    &&& native.trim_string == holds(bits, StringOptions::TRIM_STRING)
    &&& native.drop_parentheticals == holds(bits, StringOptions::DROP_PARENTHETICALS)
    &&& native.replace_numeric_hyphens == holds(bits, StringOptions::REPLACE_NUMERIC_HYPHENS)
    &&& native.delete_numeric_hyphens == holds(bits, StringOptions::DELETE_NUMERIC_HYPHENS)
    &&& native.split_alpha_from_numeric == holds(bits, StringOptions::SPLIT_ALPHA_FROM_NUMERIC)
    &&& native.replace_word_hyphens == holds(bits, StringOptions::REPLACE_WORD_HYPHENS)
    &&& native.delete_word_hyphens == holds(bits, StringOptions::DELETE_WORD_HYPHENS)
    &&& native.delete_final_periods == holds(bits, StringOptions::DELETE_FINAL_PERIODS)
    &&& native.delete_acronym_periods == holds(bits, StringOptions::DELETE_ACRONYM_PERIODS)
    &&& native.drop_english_possessives == holds(bits, StringOptions::DROP_ENGLISH_POSSESSIVES)
    &&& native.delete_apostrophes == holds(bits, StringOptions::DELETE_APOSTROPHES)
    &&& native.expand_numex == holds(bits, StringOptions::EXPAND_NUMEX)
    &&& native.roman_numerals == holds(bits, StringOptions::ROMAN_NUMERALS)
}

/// Whether `a` and `b` agree on every string option.
#[verifier::opaque]
pub open spec fn same_toggles(
    a: ffi::libpostal_normalize_options,
    b: ffi::libpostal_normalize_options,
) -> bool {
    &&& a.latin_ascii == b.latin_ascii
    &&& a.transliterate == b.transliterate
    &&& a.strip_accents == b.strip_accents
    &&& a.decompose == b.decompose
    &&& a.lowercase == b.lowercase
    &&& a.trim_string == b.trim_string
    &&& a.drop_parentheticals == b.drop_parentheticals
    &&& a.replace_numeric_hyphens == b.replace_numeric_hyphens
    &&& a.delete_numeric_hyphens == b.delete_numeric_hyphens
    &&& a.split_alpha_from_numeric == b.split_alpha_from_numeric
    &&& a.replace_word_hyphens == b.replace_word_hyphens
    &&& a.delete_word_hyphens == b.delete_word_hyphens
    &&& a.delete_final_periods == b.delete_final_periods
    &&& a.delete_acronym_periods == b.delete_acronym_periods
    &&& a.drop_english_possessives == b.drop_english_possessives
    &&& a.delete_apostrophes == b.delete_apostrophes
    &&& a.expand_numex == b.expand_numex
    &&& a.roman_numerals == b.roman_numerals
}

/// String options that are copied unchanged still reflect the same bits.
proof fn lemma_toggles_carry(
    a: ffi::libpostal_normalize_options,
    b: ffi::libpostal_normalize_options,
    c: ffi::libpostal_normalize_options,
    bits: u32,
)
    ensures
        same_toggles(a, a),
        same_toggles(a, b) ==> same_toggles(b, a),
        same_toggles(a, b) && same_toggles(b, c) ==> same_toggles(a, c),
        reflects(a, bits) && same_toggles(b, a) ==> reflects(b, bits),
        reflects(a, bits) && reflects(b, bits) ==> same_toggles(a, b),
{
    reveal(reflects);
    reveal(same_toggles);
}

/// Whether `a` and `b` agree field for field: on the languages, text by
/// text, on their count, on the address components and on every string
/// option.
pub open spec fn same_fields(
    a: ffi::libpostal_normalize_options,
    b: ffi::libpostal_normalize_options,
) -> bool {
    &&& a.languages.deep_view() == b.languages.deep_view()
    &&& a.num_languages == b.num_languages
    &&& a.address_components == b.address_components
    &&& same_toggles(a, b)
}

/// The texts of a list of language codes.
pub open spec fn texts(languages: Seq<&str>) -> Seq<Seq<char>> {
    Seq::new(languages.len(), |i: int| languages[i]@)
}

/// Whether no text of the list holds a zero byte.
pub open spec fn all_ok(texts: Seq<Seq<char>>) -> bool {
    forall|i: int| 0 <= i < texts.len() ==> !has_nul(#[trigger] texts[i])
}

/// Whether `index` is the place of the first text that holds a zero byte.
pub open spec fn is_first_with_nul(texts: Seq<Seq<char>>, index: int) -> bool {
    &&& 0 <= index < texts.len()
    &&& has_nul(texts[index])
    &&& forall|j: int| 0 <= j < index ==> !has_nul(#[trigger] texts[j])
}

/// The place of the first text that holds a zero byte, where there is one.
pub open spec fn first_with_nul(texts: Seq<Seq<char>>) -> int {
    choose|index: int| is_first_with_nul(texts, index)
}

/// Checks a list of language codes: accepted exactly when none of them
/// holds a zero byte, rejected otherwise for the first that does.
pub fn check_languages(languages: &[&str]) -> (checked: Result<(), NulError>)
    ensures
        checked is Ok <==> all_ok(texts(languages@)),
        checked matches Err(e) ==> is_first_with_nul(
            texts(languages@),
            first_with_nul(texts(languages@)),
        ) && e.rejects(texts(languages@)[first_with_nul(texts(languages@))]),
{
    let mut i: usize = 0;
    while i < languages.len()
        invariant
            i <= languages@.len(),
            forall|j: int| 0 <= j < i ==> !has_nul(#[trigger] texts(languages@)[j]),
        decreases languages@.len() - i,
    {
        if let Some(e) = NulError::find(languages[i]) {
            proof {
                let all = texts(languages@);
                assert(is_first_with_nul(all, i as int));
                let k = first_with_nul(all);
                assert(is_first_with_nul(all, k));
                assert(k == i) by {
                    if k < i {
                        assert(!has_nul(all[k]));
                    } else if i < k {
                        assert(!has_nul(all[i as int]));
                    }
                }
            }
            return Err(e);
        }
        i += 1;
    }
    Ok(())
}

/// The options that go to the native normalizer, built up from the native
/// defaults.
#[derive(Clone, Hash, Debug)]
pub struct LibpostalNormalizeOptions {
    ffi: ffi::libpostal_normalize_options,
    lang_buffer: bool,
}

impl LibpostalNormalizeOptions {
    /// The native options as they stand.
    pub closed spec fn native(&self) -> ffi::libpostal_normalize_options {
        self.ffi
    }

    /// Whether the languages have been set, and are no longer those of the
    /// native defaults.
    pub closed spec fn buffered(&self) -> bool {
        self.lang_buffer
    }

    /// Wraps the native default options.
    pub fn new(defaults: ffi::libpostal_normalize_options) -> (options: LibpostalNormalizeOptions)
        ensures
            options.native() == defaults,
            !options.buffered(),
    {
        LibpostalNormalizeOptions { ffi: defaults, lang_buffer: false }
    }

    /// Access the inner ffi options
    pub fn inner(&self) -> (native: &ffi::libpostal_normalize_options)
        ensures
            *native == self.native(),
    {
        &self.ffi
    }

    /// Whether the languages were set by [`update_languages`](Self::update_languages).
    /// Where they were not, they are still those that the native library
    /// handed out with its defaults.
    pub fn has_lang_buffer(&self) -> (buffered: bool)
        ensures
            buffered == self.buffered(),
    {
        self.lang_buffer
    }

    /// Update string options in ffi.
    ///
    /// Each string option of the native options is switched on where
    /// `string_options` holds its flag, and off where it does not. The
    /// languages and the address components stay.
    pub fn update_string_options(&mut self, string_options: &StringOptions)
        ensures
            reflects(final(self).native(), string_options@),
            final(self).native().languages == old(self).native().languages,
            final(self).native().num_languages == old(self).native().num_languages,
            final(self).native().address_components == old(self).native().address_components,
            final(self).buffered() == old(self).buffered(),
    {
        let dst = string_options;
        self.ffi.latin_ascii = dst.is_set(StringOptions::LATIN_ASCII);
        self.ffi.transliterate = dst.is_set(StringOptions::TRANSLITERATE);
        self.ffi.strip_accents = dst.is_set(StringOptions::STRIP_ACCENTS);
        self.ffi.decompose = dst.is_set(StringOptions::DECOMPOSE);
        self.ffi.lowercase = dst.is_set(StringOptions::LOWERCASE);
        self.ffi.trim_string = dst.is_set(StringOptions::TRIM_STRING);
        self.ffi.drop_parentheticals = dst.is_set(StringOptions::DROP_PARENTHETICALS);
        self.ffi.replace_numeric_hyphens = dst.is_set(StringOptions::REPLACE_NUMERIC_HYPHENS);
        self.ffi.delete_numeric_hyphens = dst.is_set(StringOptions::DELETE_NUMERIC_HYPHENS);
        self.ffi.split_alpha_from_numeric = dst.is_set(StringOptions::SPLIT_ALPHA_FROM_NUMERIC);
        self.ffi.replace_word_hyphens = dst.is_set(StringOptions::REPLACE_WORD_HYPHENS);
        self.ffi.delete_word_hyphens = dst.is_set(StringOptions::DELETE_WORD_HYPHENS);
        self.ffi.delete_final_periods = dst.is_set(StringOptions::DELETE_FINAL_PERIODS);
        self.ffi.delete_acronym_periods = dst.is_set(StringOptions::DELETE_ACRONYM_PERIODS);
        self.ffi.drop_english_possessives = dst.is_set(StringOptions::DROP_ENGLISH_POSSESSIVES);
        self.ffi.delete_apostrophes = dst.is_set(StringOptions::DELETE_APOSTROPHES);
        self.ffi.expand_numex = dst.is_set(StringOptions::EXPAND_NUMEX);
        self.ffi.roman_numerals = dst.is_set(StringOptions::ROMAN_NUMERALS);
        proof {
            reveal(reflects);
        }
    }

    /// Update address components in ffi.
    ///
    /// The bitmask of the native options becomes that of
    /// `address_components`, whose reserved bits are zero. The languages
    /// and the string options stay.
    pub fn update_address_components(&mut self, address_components: &AddressComponents)
        ensures
            final(self).native().address_components == address_components@,
            final(self).native().address_components & AddressComponents::RESERVED == 0,
            final(self).native().languages == old(self).native().languages,
            final(self).native().num_languages == old(self).native().num_languages,
            same_toggles(final(self).native(), old(self).native()),
            final(self).buffered() == old(self).buffered(),
    {
        self.ffi.address_components = address_components.bits();
        proof {
            reveal(same_toggles);
        }
    }

    /// Update languages in ffi.
    ///
    /// Languages that were set before stay. Otherwise the native options
    /// get a copy of each language of the list, in its order, and their
    /// count. The address components and the string options stay.
    ///
    /// # Errors
    ///
    /// Where the languages are to be set and one of them holds a zero byte,
    /// the first such language is rejected and the options stay as they
    /// were.
    pub fn update_languages(&mut self, languages: &[&str]) -> (updated: Result<(), NulError>)
        ensures
            updated is Ok <==> old(self).buffered() || all_ok(texts(languages@)),
            old(self).buffered() || updated is Err ==> *final(self) == *old(self),
            updated matches Err(e) ==> e.rejects(
                texts(languages@)[first_with_nul(texts(languages@))],
            ),
            !old(self).buffered() && updated is Ok ==> {
                &&& final(self).buffered()
                &&& final(self).native().languages.deep_view() == texts(languages@)
                &&& final(self).native().num_languages == languages@.len()
                &&& final(self).native().address_components == old(
                    self,
                ).native().address_components
                &&& same_toggles(final(self).native(), old(self).native())
            },
    {
        if self.lang_buffer {
            return Ok(());
        }
        check_languages(languages)?;
        let mut lang_buffer: Vec<String> = Vec::new();
        let mut i: usize = 0;
        while i < languages.len()
            invariant
                i <= languages@.len(),
                lang_buffer@.len() == i,
                forall|j: int| 0 <= j < i ==> (#[trigger] lang_buffer@[j])@ == languages@[j]@,
            decreases languages@.len() - i,
        {
            lang_buffer.push(languages[i].to_owned());
            i += 1;
        }
        assert(lang_buffer.deep_view() =~= texts(languages@));
        self.ffi.num_languages = lang_buffer.len();
        self.ffi.languages = lang_buffer;
        self.lang_buffer = true;
        proof {
            reveal(same_toggles);
        }
        Ok(())
    }
}


/// Normalization options.
///
/// Options are required to expand a postal address to its normalized variations. They are created
/// by defining optionally language-codes for normalization (e.g. 'en'), and then gradually
/// adding more options.
///
/// A `expand` method is implemented to use the options for normalizing an address.
///
/// What is left unset here is taken from the defaults of the native
/// library when the address is expanded.
#[derive(Clone, Hash, Debug)]
pub struct NormalizeOptions<'a> {
    languages: Option<Vec<&'a str>>,
    address_components: Option<AddressComponents>,
    string_options: Option<StringOptions>,
}

/// The native options that a request makes of `defaults`: each of the
/// languages, the address components and the string options is the one of
/// the request where it was set, and the native default where it was not.
pub open spec fn configured(
    defaults: ffi::libpostal_normalize_options,
    languages: Option<Seq<Seq<char>>>,
    address_components: Option<u16>,
    string_options: Option<u32>,
    native: ffi::libpostal_normalize_options,
) -> bool {
    &&& match languages {
        Some(texts) => native.languages.deep_view() == texts && native.num_languages
            == texts.len(),
        None => native.languages.deep_view() == defaults.languages.deep_view()
            && native.num_languages == defaults.num_languages,
    }
    &&& match address_components {
        Some(bits) => native.address_components == bits,
        None => native.address_components == defaults.address_components,
    }
    &&& match string_options {
        Some(bits) => reflects(native, bits),
        None => same_toggles(native, defaults),
    }
}

/// Building native options is repeatable: two structures built from the
/// same request and the same native defaults agree field for field.
pub proof fn lemma_configured_once(
    defaults: ffi::libpostal_normalize_options,
    languages: Option<Seq<Seq<char>>>,
    address_components: Option<u16>,
    string_options: Option<u32>,
    first: ffi::libpostal_normalize_options,
    second: ffi::libpostal_normalize_options,
)
    requires
        configured(defaults, languages, address_components, string_options, first),
        configured(defaults, languages, address_components, string_options, second),
    ensures
        same_fields(first, second),
{
    lemma_toggles_carry(first, second, defaults, 0);
    lemma_toggles_carry(second, defaults, first, 0);
    lemma_toggles_carry(first, defaults, second, 0);
    if let Some(bits) = string_options {
        lemma_toggles_carry(first, second, defaults, bits);
    }
}

impl<'a> NormalizeOptions<'a> {
    /// The languages of the request, if they were set.
    pub closed spec fn languages_set(&self) -> Option<Seq<Seq<char>>> {
        match self.languages {
            Some(languages) => Some(texts(languages@)),
            None => None,
        }
    }

    /// The bits of the address components of the request, if they were set.
    pub closed spec fn components_set(&self) -> Option<u16> {
        match self.address_components {
            Some(components) => Some(components@),
            None => None,
        }
    }

    /// The bits of the string options of the request, if they were set.
    pub closed spec fn strings_set(&self) -> Option<u32> {
        match self.string_options {
            Some(options) => Some(options@),
            None => None,
        }
    }

    /// Whether no language of the request holds a zero byte.
    pub open spec fn languages_ok(&self) -> bool {
        self.languages_set() matches Some(texts) ==> all_ok(texts)
    }

    /// Create new instance with default options.
    ///
    /// `languages` override the respective option field, if given.
    pub fn new(languages: Option<&[&'a str]>) -> (options: NormalizeOptions<'a>)
        ensures
            options.languages_set() == match languages {
                Some(languages) => Some(texts(languages@)),
                None => None,
            },
            options.components_set() is None,
            options.strings_set() is None,
    {
        let mut options = NormalizeOptions::default();
        if let Some(languages) = languages {
            let mut copy: Vec<&'a str> = Vec::new();
            let mut i: usize = 0;
            while i < languages.len()
                invariant
                    i <= languages@.len(),
                    copy@ == languages@.take(i as int),
                decreases languages@.len() - i,
            {
                copy.push(languages[i]);
                i += 1;
                assert(copy@ =~= languages@.take(i as int));
            }
            assert(languages@.take(i as int) =~= languages@);
            options.languages = Some(copy);
        }
        options
    }

    /// Add string option.
    pub fn add_string_option(&mut self, option: StringOptions)
        ensures
            final(self).strings_set() == Some(
                match old(self).strings_set() {
                    Some(bits) => bits | option@,
                    None => option@,
                },
            ),
            final(self).languages_set() == old(self).languages_set(),
            final(self).components_set() == old(self).components_set(),
    {
        match self.string_options {
            Some(options) => {
                self.string_options = Some(options.union(option));
            },
            None => {
                self.string_options = Some(option);
            },
        }
    }

    /// Add address component option.
    pub fn add_address_component(&mut self, component: AddressComponents)
        ensures
            final(self).components_set() == Some(
                match old(self).components_set() {
                    Some(bits) => bits | component@,
                    None => component@,
                },
            ),
            final(self).languages_set() == old(self).languages_set(),
            final(self).strings_set() == old(self).strings_set(),
    {
        match self.address_components {
            Some(components) => {
                self.address_components = Some(components.union(component));
            },
            None => {
                self.address_components = Some(component);
            },
        }
    }

    /// Create libpostal options.
    ///
    /// Starts from the native `defaults` and puts in what the request
    /// sets.
    ///
    /// # Errors
    ///
    /// A language that holds a zero byte is rejected, the first such in the
    /// list.
    pub fn libpostal_options(&self, defaults: ffi::libpostal_normalize_options) -> (built: Result<
        LibpostalNormalizeOptions,
        NulError,
    >)
        ensures
            built is Ok <==> self.languages_ok(),
            built matches Ok(options) ==> configured(
                defaults,
                self.languages_set(),
                self.components_set(),
                self.strings_set(),
                options.native(),
            ) && options.buffered() == (self.languages_set() is Some),
            built matches Err(e) ==> e.rejects(
                self.languages_set().unwrap()[first_with_nul(self.languages_set().unwrap())],
            ),
    {
        let mut options = LibpostalNormalizeOptions::new(defaults);
        proof {
            lemma_toggles_carry(defaults, defaults, defaults, 0);
        }
        if let Some(string_options) = &self.string_options {
            options.update_string_options(string_options);
        }
        let ghost with_strings = options.native();
        if let Some(address_components) = &self.address_components {
            options.update_address_components(address_components);
        }
        let ghost with_components = options.native();
        proof {
            lemma_toggles_carry(with_strings, with_components, defaults, 0);
            if let Some(bits) = self.strings_set() {
                lemma_toggles_carry(with_strings, with_components, defaults, bits);
            }
        }
        if let Some(languages) = &self.languages {
            options.update_languages(languages.as_slice())?;
        }
        proof {
            lemma_toggles_carry(with_components, options.native(), defaults, 0);
            lemma_toggles_carry(options.native(), with_components, defaults, 0);
            if let Some(bits) = self.strings_set() {
                lemma_toggles_carry(with_components, options.native(), defaults, bits);
            }
        }
        Ok(options)
    }

    /// Return current languages.
    pub fn languages(&self) -> (languages: Option<&[&str]>)
        ensures
            self.languages_set() == match languages {
                Some(languages) => Some(texts(languages@)),
                None => None,
            },
    {
        if let Some(languages) = &self.languages {
            return Some(languages.as_slice());
        }
        None
    }

    /// Return current address components.
    pub fn address_components(&self) -> (components: Option<&AddressComponents>)
        ensures
            self.components_set() == match components {
                Some(components) => Some(components@),
                None => None,
            },
    {
        self.address_components.as_ref()
    }

    /// Return current string options.
    pub fn string_options(&self) -> (options: Option<&StringOptions>)
        ensures
            self.strings_set() == match options {
                Some(options) => Some(options@),
                None => None,
            },
    {
        self.string_options.as_ref()
    }
}

impl<'a> Default for NormalizeOptions<'a> {
    fn default() -> (options: NormalizeOptions<'a>)
        ensures
            options.languages_set() is None,
            options.components_set() is None,
            options.strings_set() is None,
    {
        NormalizeOptions { languages: None, address_components: None, string_options: None }
    }
}


/// Collections of normalized variations of postal address.
#[derive(Clone, Hash, Debug)]
pub struct NormalizedAddress {
    variations: Vec<String>,
    n: usize,
}

impl NormalizedAddress {
    /// The variations, text by text, in the order of the native array.
    pub closed spec fn variations(&self) -> Seq<Seq<char>> {
        self.variations.deep_view()
    }

    /// The count that the native normalizer returned with its array.
    pub closed spec fn count(&self) -> usize {
        self.n
    }

    /// The count that the native normalizer returned with its array.
    pub fn n(&self) -> (n: usize)
        ensures
            n == self.count(),
    {
        self.n
    }

    /// The number of variations.
    pub fn len(&self) -> (len: usize)
        ensures
            len == self.variations().len(),
    {
        self.variations.len()
    }

    /// The variation at `index`, or `None` past the end.
    pub fn get(&self, index: usize) -> (variation: Option<&String>)
        ensures
            variation is Some <==> index < self.variations().len(),
            variation matches Some(text) ==> text@ == self.variations()[index as int],
    {
        if index < self.variations.len() {
            Some(&self.variations[index])
        } else {
            None
        }
    }

    /// Returns an iterator over the variations
    /// of the normalized address.
    pub fn iter(&self) -> (iter: std::slice::Iter<'_, String>)
        ensures
            vstd::std_specs::slice::into_iter_elts(iter).len() == self.variations().len(),
            forall|i: int|
                0 <= i < self.variations().len() ==> (
                #[trigger] vstd::std_specs::slice::into_iter_elts(iter)[i])@
                    == self.variations()[i],
    {
        self.variations.as_slice().iter()
    }
}

/// The iterator that `iter_mut` of a slice returns. Nothing is known of it.
#[verifier::external_type_specification]
#[verifier::external_body]
#[verifier::reject_recursive_types(T)]
pub struct ExIterMut<'a, T: 'a>(std::slice::IterMut<'a, T>);

/// Calls `iter_mut` of std on a slice of strings: an iterator over mutable
/// references to them. The slice keeps its length, as every slice behind a
/// mutable reference does. Nothing is claimed of the strings that the
/// caller reaches through the iterator.
#[verifier::external_body]
fn strings_iter_mut<'a>(slice: &'a mut [String]) -> (iter: std::slice::IterMut<'a, String>)
    ensures
        final(slice)@.len() == old(slice)@.len(),
{
    slice.iter_mut()
}

impl NormalizedAddress {
    /// Returns an iterator that allows modifying variations
    /// of the normalized address.
    ///
    /// The variations may change through the iterator; their number and
    /// the count that came with them stay.
    pub fn iter_mut(&mut self) -> (iter: std::slice::IterMut<'_, String>)
        ensures
            final(self).variations().len() == old(self).variations().len(),
            final(self).count() == old(self).count(),
    {
        strings_iter_mut(self.variations.as_mut_slice())
    }
}

impl<'a> IntoIterator for &'a mut NormalizedAddress {
    type Item = &'a mut String;

    type IntoIter = std::slice::IterMut<'a, String>;

    fn into_iter(self) -> (iter: std::slice::IterMut<'a, String>)
        ensures
            final(self).variations().len() == old(self).variations().len(),
            final(self).count() == old(self).count(),
    {
        self.iter_mut()
    }
}

impl Default for NormalizedAddress {
    fn default() -> (normalized: NormalizedAddress)
        ensures
            normalized.variations() == Seq::<Seq<char>>::empty(),
            normalized.count() == 0,
    {
        let normalized = NormalizedAddress { variations: Vec::new(), n: 0 };
        assert(normalized.variations() =~= Seq::<Seq<char>>::empty());
        normalized
    }
}

impl<'a> IntoIterator for &'a NormalizedAddress {
    type Item = &'a String;

    type IntoIter = std::slice::Iter<'a, String>;

    fn into_iter(self) -> (iter: std::slice::Iter<'a, String>)
        ensures
            vstd::std_specs::slice::into_iter_elts(iter).len() == self.variations().len(),
            forall|i: int|
                0 <= i < self.variations().len() ==> (
                #[trigger] vstd::std_specs::slice::into_iter_elts(iter)[i])@
                    == self.variations()[i],
    {
        self.iter()
    }
}


/// What the native library returned to an [`ExpansionSession`].
#[derive(Clone, Debug, PartialEq, Eq)]
pub enum ExpansionEvent {
    /// The native default options of the normalizer.
    Defaults(ffi::libpostal_normalize_options),
    /// What the native normalizer returned: the count `n` that it wrote, and
    /// the strings of its array, in their order.
    Expansions { n: usize, expansions: Vec<String> },
    /// The native array has been destroyed.
    Destroyed,
}

impl ExpansionEvent {
    /// The kind of reply that the event is.
    pub open spec fn reply(self) -> Reply {
        match self {
            ExpansionEvent::Defaults(_) => Reply::Defaults,
            ExpansionEvent::Expansions { .. } => Reply::Returned,
            ExpansionEvent::Destroyed => Reply::Released,
        }
    }

    fn kind(&self) -> (reply: Reply)
        ensures
            reply == self.reply(),
    {
        match self {
            ExpansionEvent::Defaults(_) => Reply::Defaults,
            ExpansionEvent::Expansions { .. } => Reply::Returned,
            ExpansionEvent::Destroyed => Reply::Released,
        }
    }
}

/// One request to the native normalizer, from the validated input to the
/// copied variations.
///
/// The session owns the text and the options of the request for as long as
/// the native call may read them. [`next`](ExpansionSession::next) names
/// the native call that is due, [`advance`](ExpansionSession::advance)
/// takes what it returned, and [`finish`](ExpansionSession::finish) gives
/// the variations once the native array has been destroyed.
#[derive(Debug)]
pub struct ExpansionSession<'a> {
    phase: Phase,
    address: String,
    options: NormalizeOptions<'a>,
    native: Option<LibpostalNormalizeOptions>,
    expanded: NormalizedAddress,
}

impl<'a> ExpansionSession<'a> {
    #[verifier::type_invariant]
    spec fn well_formed(&self) -> bool {
        &&& !has_nul(self.address@)
        &&& self.options.languages_ok()
    }

    /// The native call that the session waits for.
    pub closed spec fn phase(&self) -> Phase {
        self.phase
    }

    /// The address to expand.
    pub closed spec fn address_text(&self) -> Seq<char> {
        self.address@
    }

    /// The options of the request.
    pub closed spec fn request(&self) -> NormalizeOptions<'a> {
        self.options
    }

    /// The options that go to the native normalizer, once they are built.
    pub closed spec fn native(&self) -> Option<ffi::libpostal_normalize_options> {
        match self.native {
            Some(options) => Some(options.native()),
            None => None,
        }
    }

    /// The variations copied from the native array.
    pub closed spec fn variations(&self) -> Seq<Seq<char>> {
        self.expanded.variations()
    }

    /// The count that the native normalizer returned with its array.
    pub closed spec fn count(&self) -> usize {
        self.expanded.count()
    }

    /// The native call of each phase.
    pub open spec fn call_in(phase: Phase) -> Option<NativeCall> {
        match phase {
            Phase::Configure => Some(NativeCall::GetDefaultOptions),
            Phase::Invoke => Some(NativeCall::ExpandAddress),
            Phase::Release => Some(NativeCall::ExpansionArrayDestroy),
            Phase::Done => None,
        }
    }

    /// A session as [`NormalizeOptions::expand`] opens it: nothing fetched,
    /// nothing called, nothing copied.
    pub open spec fn opened_with(
        &self,
        address: Seq<char>,
        languages: Option<Seq<Seq<char>>>,
        address_components: Option<u16>,
        string_options: Option<u32>,
    ) -> bool {
        &&& self.phase() is Configure
        &&& self.address_text() == address
        &&& self.request().languages_set() == languages
        &&& self.request().components_set() == address_components
        &&& self.request().strings_set() == string_options
        &&& self.native() is None
        &&& self.variations() == Seq::<Seq<char>>::empty()
        &&& self.count() == 0
    }

    /// Whether this session is the one that `before` becomes with `event`.
    ///
    /// The phase moves as [`Phase::after`] says. The request stays. The
    /// native options are built only from the defaults that the session
    /// waits for, and the variations and their count change only with the
    /// native array that it waits for.
    pub open spec fn follows(&self, before: ExpansionSession<'a>, event: ExpansionEvent) -> bool {
        &&& self.phase() == before.phase().after(event.reply())
        &&& self.address_text() == before.address_text()
        &&& self.request() == before.request()
        &&& match event {
            ExpansionEvent::Defaults(defaults) if before.phase() is Configure => {
                self.native() matches Some(native) && configured(
                    defaults,
                    before.request().languages_set(),
                    before.request().components_set(),
                    before.request().strings_set(),
                    native,
                )
            },
            _ => self.native() == before.native(),
        }
        &&& self.variations() == match event {
            ExpansionEvent::Expansions { n, expansions } if before.phase()
                is Invoke => expansions.deep_view(),
            _ => before.variations(),
        }
        &&& self.count() == match event {
            ExpansionEvent::Expansions { n, expansions } if before.phase() is Invoke => n,
            _ => before.count(),
        }
    }

    /// The native call to make next, or `None` when the session is over.
    ///
    /// The call that hands out a native array is asked for only once the
    /// request is ready for it. Its destructor, and no other, is asked for
    /// exactly while the session holds a native array, and the session is
    /// not over while it holds one.
    pub fn next(&self) -> (call: Option<NativeCall>)
        ensures
            call == Self::call_in(self.phase()),
            call is None <==> self.phase() is Done,
            call matches Some(due) ==> {
                &&& due.allocates() <==> self.phase() is Invoke
                &&& due.releases() <==> self.phase().holds_buffer()
                &&& due.releases() ==> Some(due) == NativeCall::ExpandAddress.destructor()
            },
    {
        match self.phase {
            Phase::Configure => Some(NativeCall::GetDefaultOptions),
            Phase::Invoke => Some(NativeCall::ExpandAddress),
            Phase::Release => Some(NativeCall::ExpansionArrayDestroy),
            Phase::Done => None,
        }
    }

    /// The text to hand to the native normalizer. It holds no zero byte.
    pub fn address(&self) -> (address: &str)
        ensures
            address@ == self.address_text(),
            !has_nul(address@),
    {
        proof {
            use_type_invariant(self);
        }
        self.address.as_str()
    }

    /// The options to hand to the native normalizer, once the defaults are
    /// in: `None` before.
    pub fn options(&self) -> (options: Option<&ffi::libpostal_normalize_options>)
        ensures
            self.native() == match options {
                Some(native) => Some(*native),
                None => None,
            },
    {
        match &self.native {
            Some(native) => Some(native.inner()),
            None => None,
        }
    }

    /// The count to hand to the destructor of the native array: the one
    /// that the native normalizer returned, as it returned it.
    pub fn n(&self) -> (n: usize)
        ensures
            n == self.count(),
    {
        self.expanded.n
    }

    /// Takes what the native library returned and moves to the next phase.
    ///
    /// An event that the session does not wait for changes nothing. The
    /// native options are built from the defaults and the request; the
    /// strings of the native array are kept as they come, all of them and
    /// in their order, with the count that came with them.
    pub fn advance(&mut self, event: ExpansionEvent)
        ensures
            final(self).follows(*old(self), event),
    {
        proof {
            use_type_invariant(&*self);
        }
        let reply = event.kind();
        if !self.phase.expects(reply) {
            return ;
        }
        match event {
            ExpansionEvent::Defaults(defaults) => {
                match self.options.libpostal_options(defaults) {
                    Ok(native) => {
                        self.native = Some(native);
                    },
                    Err(_) => {},
                }
            },
            ExpansionEvent::Expansions { n, expansions } => {
                self.expanded = NormalizedAddress { variations: expansions, n };
            },
            ExpansionEvent::Destroyed => {},
        }
        self.phase = self.phase.advance(reply);
    }

    /// Ends the session: the variations once the session is over, `None`
    /// while a native call is still due.
    pub fn finish(self) -> (expanded: Option<NormalizedAddress>)
        ensures
            expanded is Some <==> self.phase() is Done,
            expanded matches Some(normalized) ==> normalized.variations() == self.variations()
                && normalized.count() == self.count(),
    {
        match self.phase {
            Phase::Done => Some(self.expanded),
            _ => None,
        }
    }
}

/// A request that is carried through in its order ends with what the
/// native normalizer returned.
///
/// Once the defaults are in, the session waits for the expansion, with the
/// address of the request and the native options that the request makes of
/// the defaults. Once the expansion has returned, it holds the native array
/// until the destructor has run, and the count for the destructor is the
/// one that came with the array. Then it is done, and its result is the
/// strings of the native array, each one and in their order.
pub proof fn lemma_expand_in_order<'a>(
    opened: ExpansionSession<'a>,
    readied: ExpansionSession<'a>,
    returned: ExpansionSession<'a>,
    released: ExpansionSession<'a>,
    defaults: ffi::libpostal_normalize_options,
    n: usize,
    expansions: Vec<String>,
)
    requires
        opened.phase() is Configure,
        readied.follows(opened, ExpansionEvent::Defaults(defaults)),
        returned.follows(readied, ExpansionEvent::Expansions { n, expansions }),
        released.follows(returned, ExpansionEvent::Destroyed),
    ensures
        readied.phase() is Invoke,
        readied.address_text() == opened.address_text(),
        readied.native() matches Some(native) && configured(
            defaults,
            opened.request().languages_set(),
            opened.request().components_set(),
            opened.request().strings_set(),
            native,
        ),
        returned.phase().holds_buffer(),
        returned.native() == readied.native(),
        returned.count() == n,
        released.phase() is Done,
        released.variations() == expansions.deep_view(),
        released.count() == n,
{
}

/// Whether no text of a request holds a zero byte.
pub open spec fn request_ok(address: Seq<char>, languages: Option<Seq<Seq<char>>>) -> bool {
    &&& languages matches Some(texts) ==> all_ok(texts)
    &&& !has_nul(address)
}

/// The text that a request is rejected for: the first language that holds
/// a zero byte, or else the address.
pub open spec fn first_rejected(address: Seq<char>, languages: Option<Seq<Seq<char>>>) -> Seq<
    char,
> {
    match languages {
        Some(texts) if !all_ok(texts) => texts[first_with_nul(texts)],
        _ => address,
    }
}

impl<'a> NormalizeOptions<'a> {
    /// Expand address into normalized variations using libpostal.
    ///
    /// Opens the session that carries the request through the native
    /// normalizer. No native call has been made when this returns.
    ///
    /// ## Errors
    ///
    /// A text that holds a zero byte is rejected as `InvalidAddress`, with
    /// the position of its first zero byte: the languages first, in their
    /// order, then the address. A request whose texts hold none fails only
    /// with `FailedSetup`, and only where the base of the native library or
    /// its language classifier is not `Ready` in `lifecycle`.
    pub fn expand(&mut self, address: &str, lifecycle: &Lifecycle) -> (opened: Result<
        ExpansionSession<'a>,
        RuntimeError,
    >)
        ensures
            *final(self) == *old(self),
            match opened {
                Ok(session) => {
                    &&& request_ok(address@, old(self).languages_set())
                    &&& lifecycle.ready_for(LibModules::Expand)
                    &&& session.opened_with(
                        address@,
                        old(self).languages_set(),
                        old(self).components_set(),
                        old(self).strings_set(),
                    )
                },
                Err(RuntimeError::InvalidAddress(e)) => {
                    &&& !request_ok(address@, old(self).languages_set())
                    &&& e.rejects(first_rejected(address@, old(self).languages_set()))
                },
                Err(RuntimeError::FailedSetup(_)) => {
                    &&& request_ok(address@, old(self).languages_set())
                    &&& !lifecycle.ready_for(LibModules::Expand)
                },
            },
    {
        if let Some(languages) = &self.languages {
            match check_languages(languages.as_slice()) {
                Ok(()) => {},
                Err(e) => { return Err(RuntimeError::from(e)); },
            }
        }
        let c_address = match ffi::c_string(address) {
            Ok(c_address) => c_address,
            Err(e) => { return Err(RuntimeError::from(e)); },
        };
        match lifecycle.state(&LibModules::Expand) {
            LifecycleState::Ready => {},
            _ => { return Err(RuntimeError::from(SetupError)); },
        }
        Ok(
            ExpansionSession {
                phase: Phase::Configure,
                address: c_address,
                options: self.copy(),
                native: None,
                expanded: NormalizedAddress::default(),
            },
        )
    }

    fn copy(&self) -> (copy: NormalizeOptions<'a>)
        ensures
            copy.languages_set() == self.languages_set(),
            copy.components_set() == self.components_set(),
            copy.strings_set() == self.strings_set(),
    {
        let languages = match &self.languages {
            Some(languages) => {
                let mut copy: Vec<&'a str> = Vec::new();
                let mut i: usize = 0;
                while i < languages.len()
                    invariant
                        i <= languages@.len(),
                        copy@ == languages@.take(i as int),
                    decreases languages@.len() - i,
                {
                    copy.push(languages[i]);
                    i += 1;
                    assert(copy@ =~= languages@.take(i as int));
                }
                assert(languages@.take(i as int) =~= languages@);
                Some(copy)
            },
            None => None,
        };
        NormalizeOptions {
            languages,
            address_components: self.address_components,
            string_options: self.string_options,
        }
    }
}

/// Normalize address with default options.
///
/// Opens the session that yields the variations, and makes no native call.
///
/// ## Errors
///
/// An address that holds a zero byte is rejected as `InvalidAddress`, with
/// the position of its first zero byte. Any other fails only with
/// `FailedSetup`, and only where the base of the native library or its
/// language classifier is not `Ready` in `lifecycle`.
pub fn expand_address<'a>(address: &str, lifecycle: &Lifecycle) -> (opened: Result<
    ExpansionSession<'a>,
    RuntimeError,
>)
    ensures
        match opened {
            Ok(session) => {
                &&& !has_nul(address@)
                &&& lifecycle.ready_for(LibModules::Expand)
                &&& session.opened_with(address@, None, None, None)
            },
            Err(RuntimeError::InvalidAddress(e)) => has_nul(address@) && e.rejects(address@),
            Err(RuntimeError::FailedSetup(_)) => !has_nul(address@) && !lifecycle.ready_for(
                LibModules::Expand,
            ),
        },
{
    let mut options = NormalizeOptions::default();
    options.expand(address, lifecycle)
}

/// Normalize address with optional user-defined languages.
///
/// Opens the session that yields the variations, and makes no native call.
///
/// ## Errors
///
/// A text that holds a zero byte is rejected as `InvalidAddress`, with the
/// position of its first zero byte: the languages first, in their order,
/// then the address. A request whose texts hold none fails only with
/// `FailedSetup`, and only where the base of the native library or its
/// language classifier is not `Ready` in `lifecycle`.
pub fn expand_address_with_options<'a>(
    address: &str,
    languages: Option<&[&'a str]>,
    lifecycle: &Lifecycle,
) -> (opened: Result<ExpansionSession<'a>, RuntimeError>)
    ensures
        match opened {
            Ok(session) => {
                &&& request_ok(address@, listed(languages))
                &&& lifecycle.ready_for(LibModules::Expand)
                &&& session.opened_with(address@, listed(languages), None, None)
            },
            Err(RuntimeError::InvalidAddress(e)) => {
                &&& !request_ok(address@, listed(languages))
                &&& e.rejects(first_rejected(address@, listed(languages)))
            },
            Err(RuntimeError::FailedSetup(_)) => {
                &&& request_ok(address@, listed(languages))
                &&& !lifecycle.ready_for(LibModules::Expand)
            },
        },
{
    let mut options = NormalizeOptions::new(languages);
    options.expand(address, lifecycle)
}

/// The texts of an optional list of language codes.
pub open spec fn listed(languages: Option<&[&str]>) -> Option<Seq<Seq<char>>> {
    match languages {
        Some(languages) => Some(texts(languages@)),
        None => None,
    }
}

} // verus!
