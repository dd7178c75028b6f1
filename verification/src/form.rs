//! The form of a POST: key and value pairs in the order they were added,
//! starting with `api_type=json`.

use crate::endpoint::pairs_view;
use vstd::prelude::*;
use vstd::string::StringExecFns;

verus! {

/// The form of a POST.
#[derive(Debug)]
pub struct FormBuilder {
    values: Vec<(String, String)>,
}

impl View for FormBuilder {
    type V = Seq<(Seq<char>, Seq<char>)>;

    closed spec fn view(&self) -> Seq<(Seq<char>, Seq<char>)> {
        pairs_view(self.values@)
    }
}

impl FormBuilder {
    /// A form that holds `api_type=json` and nothing else.
    pub fn new() -> (r: Self)
        ensures
            r@ == seq![("api_type"@, "json"@)],
    {
        let mut values: Vec<(String, String)> = Vec::new();
        values.push((String::from_str("api_type"), String::from_str("json")));
        let form = FormBuilder { values };
        proof {
            assert(form@ =~= seq![("api_type"@, "json"@)]);
        }
        form
    }

    /// A form without any pair, as the token endpoint takes it.
    pub fn empty() -> (r: Self)
        ensures
            r@ == Seq::<(Seq<char>, Seq<char>)>::empty(),
    {
        let form = FormBuilder { values: Vec::new() };
        proof {
            assert(form@ =~= Seq::<(Seq<char>, Seq<char>)>::empty());
        }
        form
    }

    /// The form with one more pair at its end.
    pub fn with(self, key: &str, value: &str) -> (r: Self)
        ensures
            r@ == self@.push((key@, value@)),
    {
        let mut form = self;
        form.add(key, value);
        form
    }

    /// The form with one more pair at its end, whose value is `true` or
    /// `false`.
    pub fn with_bool(self, key: &str, value: bool) -> (r: Self)
        ensures
            r@ == self@.push(
                (
                    key@,
                    if value {
                        "true"@
                    } else {
                        "false"@
                    },
                ),
            ),
    {
        self.with(
            key,
            if value {
                "true"
            } else {
                "false"
            },
        )
    }

    /// Adds one pair at the end.
    pub fn add(&mut self, key: &str, value: &str)
        ensures
            final(self)@ == old(self)@.push((key@, value@)),
    {
        self.values.push((key.to_owned(), value.to_owned()));
        proof {
            assert(self@ =~= old(self)@.push((key@, value@)));
        }
    }

    /// The form that holds `api_type=json` and then these pairs.
    pub fn from_pairs(pairs: &Vec<(&str, &str)>) -> (r: Self)
        ensures
            r@ == seq![("api_type"@, "json"@)] + pairs@.map_values(
                |p: (&str, &str)| (p.0@, p.1@),
            ),
    {
        let mut form = FormBuilder::new();
        let mut i: usize = 0;
        while i < pairs.len()
            invariant
                i <= pairs.len(),
                form@ == seq![("api_type"@, "json"@)] + pairs@.subrange(0, i as int).map_values(
                    |p: (&str, &str)| (p.0@, p.1@),
                ),
            decreases pairs.len() - i,
        {
            let ghost before = form@;
            form.add(pairs[i].0, pairs[i].1);
            proof {
                assert(form@ =~= seq![("api_type"@, "json"@)] + pairs@.subrange(
                    0,
                    i + 1,
                ).map_values(|p: (&str, &str)| (p.0@, p.1@)));
            }
            i = i + 1;
        }
        proof {
            assert(pairs@.subrange(0, pairs@.len() as int) =~= pairs@);
        }
        form
    }

    /// The pairs of the form, in order.
    pub fn pairs(&self) -> (r: &Vec<(String, String)>)
        ensures
            pairs_view(r@) == self@,
    {
        &self.values
    }
}

} // verus!
