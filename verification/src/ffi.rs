//! The boundary with the native `libpostal` library, as plain values.
//!
//! Nothing here touches native memory. The entry points of the native
//! library are listed as [`NativeCall`], and the structures that cross the
//! boundary are mirrored field for field with owned strings in place of
//! pointers. The code that embeds this crate performs the calls and converts
//! between these values and the native layout.
#![allow(non_camel_case_types)]

use vstd::prelude::*;
use vstd::string::*;

use crate::error::{has_nul, NulError};

verus! {

/// Copies `text` into a string that can cross the native boundary as a
/// null-terminated string: accepted exactly when it holds no zero byte,
/// rejected otherwise with the position of the first one.
pub fn c_string(text: &str) -> (converted: Result<String, NulError>)
    ensures
        converted is Ok <==> !has_nul(text@),
        converted matches Ok(copy) ==> copy@ == text@,
        converted matches Err(e) ==> e.rejects(text@),
{
    match NulError::find(text) {
        Some(e) => Err(e),
        None => Ok(text.to_owned()),
    }
}

/// The entry points of the native library.
#[derive(Clone, Copy, Debug, Hash, PartialEq, Eq, Structural)]
pub enum NativeCall {
    /// `libpostal_get_address_parser_default_options`
    GetAddressParserDefaultOptions,
    /// `libpostal_setup`
    Setup,
    /// `libpostal_setup_parser`
    SetupParser,
    /// `libpostal_setup_language_classifier`
    SetupLanguageClassifier,
    /// `libpostal_teardown`
    Teardown,
    /// `libpostal_teardown_parser`
    TeardownParser,
    /// `libpostal_teardown_language_classifier`
    TeardownLanguageClassifier,
    /// `libpostal_parse_address`
    ParseAddress,
    /// `libpostal_address_parser_response_destroy`
    AddressParserResponseDestroy,
    /// `libpostal_get_default_options`
    GetDefaultOptions,
    /// `libpostal_expand_address`
    ExpandAddress,
    /// `libpostal_expansion_array_destroy`
    ExpansionArrayDestroy,
}

impl NativeCall {
    /// Whether the call hands a native buffer to its caller.
    pub open spec fn allocates(self) -> bool {
        self is ParseAddress || self is ExpandAddress
    }

    /// Whether the call gives a native buffer back to the library.
    pub open spec fn releases(self) -> bool {
        self is AddressParserResponseDestroy || self is ExpansionArrayDestroy
    }

    /// The destructor that takes back what this call hands out.
    pub open spec fn destructor(self) -> Option<NativeCall> {
        match self {
            NativeCall::ParseAddress => Some(NativeCall::AddressParserResponseDestroy),
            NativeCall::ExpandAddress => Some(NativeCall::ExpansionArrayDestroy),
            _ => None,
        }
    }
}

/// Options of the native address parser: a language and a country hint,
/// each absent where the native field is a null pointer.
#[derive(Clone, Debug, Hash, PartialEq, Eq)]
pub struct libpostal_address_parser_options {
    pub language: Option<String>,
    pub country: Option<String>,
}

/// What the native address parser returns: `num_components` tokens and, in
/// parallel, their labels.
#[derive(Clone, Debug, Hash, PartialEq, Eq)]
pub struct libpostal_address_parser_response {
    pub num_components: usize,
    pub components: Vec<String>,
    pub labels: Vec<String>,
}

/// Options of the native normalizer, in the order of the native structure.
#[derive(Clone, Debug, Hash, PartialEq, Eq)]
pub struct libpostal_normalize_options {
    pub languages: Vec<String>,
    pub num_languages: usize,
    pub address_components: u16,
    // String options
    pub latin_ascii: bool,
    pub transliterate: bool,
    pub strip_accents: bool,
    pub decompose: bool,
    pub lowercase: bool,
    pub trim_string: bool,
    pub drop_parentheticals: bool,
    pub replace_numeric_hyphens: bool,
    pub delete_numeric_hyphens: bool,
    pub split_alpha_from_numeric: bool,
    pub replace_word_hyphens: bool,
    pub delete_word_hyphens: bool,
    pub delete_final_periods: bool,
    pub delete_acronym_periods: bool,
    pub drop_english_possessives: bool,
    pub delete_apostrophes: bool,
    pub expand_numex: bool,
    pub roman_numerals: bool,
}

} // verus!
