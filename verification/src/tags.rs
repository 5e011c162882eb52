use vstd::prelude::*;

verus! {

/// Metadata a caller attaches to a forwarded call: who asks, on whose behalf,
/// and for what purpose. Free-form text; the gateway never checks its content,
/// only (under the strict tag policy) its presence.
pub struct Tags {
    pub person: String,
    pub company: String,
    pub purpose: String,
}

/// The mathematical value of [`Tags`]: the three fields as character
/// sequences.
pub ghost struct TagsView {
    pub person: Seq<char>,
    pub company: Seq<char>,
    pub purpose: Seq<char>,
}

impl View for Tags {
    type V = TagsView;

    open spec fn view(&self) -> TagsView {
        TagsView { person: self.person@, company: self.company@, purpose: self.purpose@ }
    }
}

impl Tags {
    pub fn new(person: String, company: String, purpose: String) -> (r: Self)
        ensures
            r@ == (TagsView { person: person@, company: company@, purpose: purpose@ }),
    {
        Self { person, company, purpose }
    }
}

impl Clone for Tags {
    fn clone(&self) -> (r: Self)
        ensures
            r@ == self@,
    {
        Tags {
            person: self.person.clone(),
            company: self.company.clone(),
            purpose: self.purpose.clone(),
        }
    }
}

/// The view of an optional tag set: the views of the tags where present.
pub open spec fn opt_tags_view(t: Option<Tags>) -> Option<TagsView> {
    match t {
        Option::Some(x) => Option::Some(x@),
        Option::None => Option::None,
    }
}

/// A remote invocation descriptor: the function to call on the target and its
/// serialized parameter payload. The payload is opaque to the gateway.
pub struct ContractArgs {
    pub function_name: String,
    pub params: String,
}

/// The mathematical value of [`ContractArgs`].
pub ghost struct ContractArgsView {
    pub function_name: Seq<char>,
    pub params: Seq<char>,
}

impl View for ContractArgs {
    type V = ContractArgsView;

    open spec fn view(&self) -> ContractArgsView {
        ContractArgsView { function_name: self.function_name@, params: self.params@ }
    }
}

impl ContractArgs {
    pub fn new(function_name: String, params: String) -> (r: Self)
        ensures
            r@ == (ContractArgsView { function_name: function_name@, params: params@ }),
    {
        Self { function_name, params }
    }
}

impl Clone for ContractArgs {
    fn clone(&self) -> (r: Self)
        ensures
            r@ == self@,
    {
        ContractArgs { function_name: self.function_name.clone(), params: self.params.clone() }
    }
}

} // verus!
