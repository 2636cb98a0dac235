//! English notification texts, looked up by key, with `{}` placeholders
//! filled in order.
use vstd::prelude::*;
use crate::text::{chars_of, push_char, str_eq};

verus! {

/// The English text for a message key.
pub open spec fn message_of(key: Seq<char>) -> Seq<char> {
    if key == "in_buffer"@ {
        "{} items copied in buffer."@
    } else if key == "deleted"@ {
        "Deleted {} items!"@
    } else if key == "moved"@ {
        "Moved {} items!"@
    } else if key == "pasted_with_error"@ {
        "Pasted {} items! Failed {} files: {}"@
    } else if key == "deleted_with_error"@ {
        "Deleted {} items! Failed {} files: {}"@
    } else if key == "moved_with_error"@ {
        "Moved {} items! Failed {} files: {}"@
    } else if key == "path_does_not_exist"@ {
        "Path does not exist: {}"@
    } else if key == "pasted"@ {
        "Pasted {} items!"@
    } else if key == "bookmark_added"@ {
        "Bookmark added!"@
    } else if key == "bookmark_deleted"@ {
        "Bookmark deleted!"@
    } else if key == "bookmark_invalid"@ {
        "Bookmark invalid!"@
    } else if key == "path_invalid"@ {
        "Path is invalid"@
    } else if key == "items_not_found"@ {
        "Files not found."@
    } else if key == "buffer_empty"@ {
        "Buffer is empty."@
    } else if key == "items_not_pasted"@ {
        "Files not pasted."@
    } else if key == "items_not_deleted"@ {
        "Files not deleted."@
    } else if key == "insert_mode"@ {
        "--INSERT--"@
    } else if key == "visual_mode"@ {
        "--VISUAL--"@
    } else if key == "bookmarks_mode"@ {
        "--BOOKMARKS--"@
    } else if key == "no_matches"@ {
        "No more matches for {}"@
    } else if key == "matches"@ {
        "Matches: {}"@
    } else {
        "Unknown message"@
    }
}

/// The number of `{}` placeholders in a template.
pub open spec fn placeholders(t: Seq<char>) -> nat
    decreases t.len(),
{
    if t.len() == 0 {
        0
    } else if t.len() >= 2 && t[0] == '{' && t[1] == '}' {
        1 + placeholders(t.subrange(2, t.len() as int))
    } else {
        placeholders(t.drop_first())
    }
}

/// The template with its placeholders replaced by `args`, in order.
pub open spec fn fill(t: Seq<char>, args: Seq<Seq<char>>) -> Seq<char>
    decreases t.len(),
{
    if t.len() == 0 {
        Seq::empty()
    } else if t.len() >= 2 && t[0] == '{' && t[1] == '}' {
        (if args.len() > 0 { args[0] } else { Seq::empty() }) + fill(t.subrange(2, t.len() as int), args.drop_first())
    } else {
        seq![t[0]] + fill(t.drop_first(), args)
    }
}

/// What `en_fmt` gives: the filled template where the number of arguments
/// is the number of placeholders, else a text naming the template.
pub open spec fn formatted(key: Seq<char>, args: Seq<Seq<char>>) -> Seq<char> {
    let t = message_of(key);
    if placeholders(t) == args.len() {
        fill(t, args)
    } else {
        "Invalid format: "@ + t
    }
}

pub struct Lang;

impl Lang {
    /// The English text for `key`, or `Unknown message`.
    pub fn en(key: &str) -> (r: &'static str)
        ensures
            r@ == message_of(key@),
    {
        if str_eq(key, "in_buffer") {
            "{} items copied in buffer."
        } else if str_eq(key, "deleted") {
            "Deleted {} items!"
        } else if str_eq(key, "moved") {
            "Moved {} items!"
        } else if str_eq(key, "pasted_with_error") {
            "Pasted {} items! Failed {} files: {}"
        } else if str_eq(key, "deleted_with_error") {
            "Deleted {} items! Failed {} files: {}"
        } else if str_eq(key, "moved_with_error") {
            "Moved {} items! Failed {} files: {}"
        } else if str_eq(key, "path_does_not_exist") {
            "Path does not exist: {}"
        } else if str_eq(key, "pasted") {
            "Pasted {} items!"
        } else if str_eq(key, "bookmark_added") {
            "Bookmark added!"
        } else if str_eq(key, "bookmark_deleted") {
            "Bookmark deleted!"
        } else if str_eq(key, "bookmark_invalid") {
            "Bookmark invalid!"
        } else if str_eq(key, "path_invalid") {
            "Path is invalid"
        } else if str_eq(key, "items_not_found") {
            "Files not found."
        } else if str_eq(key, "buffer_empty") {
            "Buffer is empty."
        } else if str_eq(key, "items_not_pasted") {
            "Files not pasted."
        } else if str_eq(key, "items_not_deleted") {
            "Files not deleted."
        } else if str_eq(key, "insert_mode") {
            "--INSERT--"
        } else if str_eq(key, "visual_mode") {
            "--VISUAL--"
        } else if str_eq(key, "bookmarks_mode") {
            "--BOOKMARKS--"
        } else if str_eq(key, "no_matches") {
            "No more matches for {}"
        } else if str_eq(key, "matches") {
            "Matches: {}"
        } else {
            "Unknown message"
        }
    }

    /// The English text for `key` with its placeholders filled by `args`.
    pub fn en_fmt(key: &str, args: &Vec<String>) -> (r: String)
        ensures
            r@ == formatted(key@, args@.map_values(|a: String| a@)),
    {
        let template = Lang::en(key);
        let t = chars_of(template);
        let ghost av = args@.map_values(|a: String| a@);
        let mut out = String::new();
        let mut i: usize = 0;
        let mut j: usize = 0;
        let mut count: usize = 0;
        assert(t@.subrange(0, t@.len() as int) =~= t@);
        assert(av.subrange(0, av.len() as int) =~= av);
        while i < t.len()
            invariant
                i <= t@.len(),
                j <= args@.len(),
                av == args@.map_values(|a: String| a@),
                count <= i,
                placeholders(t@) == count + placeholders(t@.subrange(i as int, t@.len() as int)),
                fill(t@, av) == out@ + fill(t@.subrange(i as int, t@.len() as int), av.subrange(j as int, av.len() as int))
                    || count > args@.len(),
                count <= args@.len() ==> j == count,
            decreases t@.len() - i,
        {
            let ghost rest = t@.subrange(i as int, t@.len() as int);
            if i + 1 < t.len() && t[i] == '{' && t[i + 1] == '}' {
                assert(rest.subrange(2, rest.len() as int) =~= t@.subrange(i + 2, t@.len() as int));
                if j < args.len() {
                    out.append(args[j].as_str());
                    assert(av.subrange(j as int, av.len() as int).drop_first() =~= av.subrange(j + 1, av.len() as int));
                    j = j + 1;
                }
                count = count + 1;
                i = i + 2;
            } else {
                push_char(&mut out, t[i]);
                assert(rest.drop_first() =~= t@.subrange(i + 1, t@.len() as int));
                i = i + 1;
            }
        }
        if count == args.len() {
            assert(fill(t@.subrange(i as int, t@.len() as int), av.subrange(j as int, av.len() as int)) =~= Seq::<char>::empty());
            assert(out@ =~= out@ + Seq::<char>::empty());
            out
        } else {
            let mut r = String::from_str("Invalid format: ");
            r.append(template);
            r
        }
    }
}

} // verus!
