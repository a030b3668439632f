use vstd::prelude::*;

verus! {

/// The entries of a list of JSON values that a tool schema keeps once `null`
/// is taken out, in order: the strings other than `"null"`. An entry that is
/// no string is `None`.
pub open spec fn non_null(items: Seq<Option<String>>) -> Seq<Seq<char>>
    decreases items.len(),
{
    if items.len() == 0 {
        Seq::empty()
    } else {
        let rest = non_null(items.drop_last());
        match items.last() {
            Some(s) => if s@ != "null"@ {
                rest.push(s@)
            } else {
                rest
            },
            None => rest,
        }
    }
}

/// The views of a list of strings.
pub open spec fn views(v: Seq<String>) -> Seq<Seq<char>> {
    v.map_values(|s: String| s@)
}

/// The strings of `items` other than `"null"`, in order.
pub fn strip_null(items: &Vec<Option<String>>) -> (r: Vec<String>)
    ensures
        views(r@) == non_null(items@),
{
    let null = "null".to_owned();
    let mut kept: Vec<String> = Vec::new();
    let mut i: usize = 0;
    while i < items.len()
        invariant
            i <= items@.len(),
            null@ == "null"@,
            views(kept@) == non_null(items@.subrange(0, i as int)),
        decreases items@.len() - i,
    {
        proof {
            assert(items@.subrange(0, i as int + 1).drop_last() == items@.subrange(0, i as int));
        }
        match &items[i] {
            Some(s) => {
                if !(*s == null) {
                    kept.push(s.clone());
                    proof {
                        assert(views(kept@) == views(kept@.drop_last()).push(s@));
                    }
                }
            },
            None => {},
        }
        i = i + 1;
    }
    proof {
        assert(items@.subrange(0, items@.len() as int) == items@);
    }
    kept
}

/// The `type` of a tool schema once `null` is taken out: one name alone, or a
/// list of other than one.
#[derive(Debug, Clone, PartialEq, Eq)]
pub enum SchemaTypes {
    Single(String),
    Several(Vec<String>),
}

/// The `type` list `items` of a schema without `null`, collapsed to its one
/// name where just one is left.
pub fn schema_types(items: &Vec<Option<String>>) -> (r: SchemaTypes)
    ensures
        match r {
            SchemaTypes::Single(s) => non_null(items@) == seq![s@],
            SchemaTypes::Several(v) => views(v@) == non_null(items@) && v@.len() != 1,
        },
{
    let mut kept = strip_null(items);
    if kept.len() == 1 {
        let s = kept.pop().unwrap();
        proof {
            assert(views(seq![s]) == seq![s@]);
        }
        SchemaTypes::Single(s)
    } else {
        SchemaTypes::Several(kept)
    }
}

} // verus!
