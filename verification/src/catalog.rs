//! The static catalog of known BibTeX field names, in a fixed order. The
//! provider turns each name into one completion item at construction.

use vstd::prelude::*;

verus! {

/// The known field names, in catalog order.
pub open spec fn field_name_catalog() -> Seq<Seq<char>> {
    seq![
        "address"@,
        "annote"@,
        "author"@,
        "booktitle"@,
        "chapter"@,
        "crossref"@,
        "edition"@,
        "editor"@,
        "howpublished"@,
        "institution"@,
        "journal"@,
        "key"@,
        "month"@,
        "note"@,
        "number"@,
        "organization"@,
        "pages"@,
        "publisher"@,
        "school"@,
        "series"@,
        "title"@,
        "type"@,
        "volume"@,
        "year"@,
    ]
}

/// The catalog as owned strings, one per known field name, order-preserving.
pub fn known_field_names() -> (names: Vec<String>)
    ensures
        names.deep_view() == field_name_catalog(),
{
    let mut names: Vec<String> = Vec::new();
    names.push("address".to_owned());
    names.push("annote".to_owned());
    names.push("author".to_owned());
    names.push("booktitle".to_owned());
    names.push("chapter".to_owned());
    names.push("crossref".to_owned());
    names.push("edition".to_owned());
    names.push("editor".to_owned());
    names.push("howpublished".to_owned());
    names.push("institution".to_owned());
    names.push("journal".to_owned());
    names.push("key".to_owned());
    names.push("month".to_owned());
    names.push("note".to_owned());
    names.push("number".to_owned());
    names.push("organization".to_owned());
    names.push("pages".to_owned());
    names.push("publisher".to_owned());
    names.push("school".to_owned());
    names.push("series".to_owned());
    names.push("title".to_owned());
    names.push("type".to_owned());
    names.push("volume".to_owned());
    names.push("year".to_owned());
    proof {
        assert(names.deep_view() =~= field_name_catalog());
    }
    names
}

} // verus!
