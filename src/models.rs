//! The supported models, their aliases and names, and the current selection.
use vstd::prelude::*;
use crate::text::same_text;

verus! {

/// A backend model, or `Invalid` for text that names none.
#[derive(PartialEq, Eq, Structural, Debug, Clone, Copy)]
pub enum Model {
    OpenAIGPT4o,
    OpenAIGPT4oMini,
    OpenAIGPTo1Preview,
    OpenAIGPTo1Mini,
    OpenAIGPTo1,
    Invalid,
}

/// The model that an alias selects; `Invalid` for any other text.
pub open spec fn model_of(s: Seq<char>) -> Model {
    if s == "4o"@ {
        Model::OpenAIGPT4o
    } else if s == "4o-mini"@ || s == "4om"@ {
        Model::OpenAIGPT4oMini
    } else if s == "o1-preview"@ || s == "o1p"@ {
        Model::OpenAIGPTo1Preview
    } else if s == "o1-mini"@ || s == "o1m"@ {
        Model::OpenAIGPTo1Mini
    } else if s == "o1"@ {
        Model::OpenAIGPTo1
    } else {
        Model::Invalid
    }
}

/// The name under which the upstream API knows a model.
pub open spec fn name_of(m: Model) -> Seq<char> {
    match m {
        Model::OpenAIGPT4o => "gpt-4o"@,
        Model::OpenAIGPT4oMini => "gpt-4o-mini"@,
        Model::OpenAIGPTo1Preview => "o1-preview"@,
        Model::OpenAIGPTo1Mini => "o1-mini"@,
        Model::OpenAIGPTo1 => "o1"@,
        Model::Invalid => Seq::empty(),
    }
}

/// The model selected when nothing else has been chosen.
pub open spec fn default_model() -> Model {
    Model::OpenAIGPT4o
}

impl Default for Model {
    fn default() -> (r: Model)
        ensures
            r == default_model(),
    {
        Model::OpenAIGPT4o
    }
}

impl<'a> From<&'a str> for Model {
    /// Looks `s` up in the alias table, as `Model::parse` does.
    fn from(s: &'a str) -> (r: Model) {
        Model::parse(s)
    }
}

impl<'a> vstd::std_specs::convert::FromSpecImpl<&'a str> for Model {
    open spec fn obeys_from_spec() -> bool {
        true
    }

    open spec fn from_spec(s: &'a str) -> Model {
        model_of(s@)
    }
}

impl Model {
    /// Looks `s` up in the alias table (case-sensitive).
    pub fn parse(s: &str) -> (r: Model)
        ensures
            r == model_of(s@),
    {
        if same_text(s, "4o") {
            Model::OpenAIGPT4o
        } else if same_text(s, "4o-mini") || same_text(s, "4om") {
            Model::OpenAIGPT4oMini
        } else if same_text(s, "o1-preview") || same_text(s, "o1p") {
            Model::OpenAIGPTo1Preview
        } else if same_text(s, "o1-mini") || same_text(s, "o1m") {
            Model::OpenAIGPTo1Mini
        } else if same_text(s, "o1") {
            Model::OpenAIGPTo1
        } else {
            Model::Invalid
        }
    }

    /// The upstream name of a real model. Rendering `Invalid` is a caller
    /// bug, so it is ruled out here.
    pub fn name(&self) -> (r: &'static str)
        requires
            *self != Model::Invalid,
        ensures
            r@ == name_of(*self),
    {
        match self {
            Model::OpenAIGPT4o => "gpt-4o",
            Model::OpenAIGPT4oMini => "gpt-4o-mini",
            Model::OpenAIGPTo1Preview => "o1-preview",
            Model::OpenAIGPTo1Mini => "o1-mini",
            Model::OpenAIGPTo1 => "o1",
            Model::Invalid => "",
        }
    }

    /// The upstream name, or `None` for `Invalid`, for callers that cannot
    /// rule it out.
    pub fn checked_name(&self) -> (r: Option<&'static str>)
        ensures
            *self == Model::Invalid <==> r is None,
            r is Some ==> r->0@ == name_of(*self),
    {
        if *self == Model::Invalid {
            None
        } else {
            Some(self.name())
        }
    }
}

/// Every alias of the table renders, after parsing, as the upstream name of
/// the model it stands for.
pub proof fn lemma_alias_renders_canonical(a: Seq<char>)
    requires
        model_of(a) != Model::Invalid,
    ensures
        a == "4o"@ ==> name_of(model_of(a)) == "gpt-4o"@,
        a == "4o-mini"@ || a == "4om"@ ==> name_of(model_of(a)) == "gpt-4o-mini"@,
        a == "o1-preview"@ || a == "o1p"@ ==> name_of(model_of(a)) == "o1-preview"@,
        a == "o1-mini"@ || a == "o1m"@ ==> name_of(model_of(a)) == "o1-mini"@,
        a == "o1"@ ==> name_of(model_of(a)) == "o1"@,
        name_of(model_of(a)).len() > 0,
{
    reveal_strlit("4o");
    reveal_strlit("4o-mini");
    reveal_strlit("4om");
    reveal_strlit("o1-preview");
    reveal_strlit("o1p");
    reveal_strlit("o1-mini");
    reveal_strlit("o1m");
    reveal_strlit("o1");
    reveal_strlit("gpt-4o");
    reveal_strlit("gpt-4o-mini");
    assert("4o"@.len() == 2 && "4om"@.len() == 3 && "o1p"@.len() == 3 && "o1m"@.len() == 3);
    assert("4o-mini"@.len() == 7 && "o1-mini"@.len() == 7 && "o1-preview"@.len() == 10);
    assert("o1"@.len() == 2 && "4om"@[0] != "o1p"@[0] && "4om"@[0] != "o1m"@[0]);
    assert("o1p"@[2] != "o1m"@[2] && "4o-mini"@[0] != "o1-mini"@[0] && "4o"@[0] != "o1"@[0]);
}

/// The model rejected by `ModelSelection::set`.
#[derive(PartialEq, Eq, Structural, Debug, Clone, Copy)]
pub struct InvalidModel;

/// The current model choice. It never holds `Invalid`.
pub struct ModelSelection {
    current: Model,
}

impl View for ModelSelection {
    type V = Model;

    closed spec fn view(&self) -> Model {
        self.current
    }
}

impl ModelSelection {
    #[verifier::type_invariant]
    spec fn inv(&self) -> bool {
        self.current != Model::Invalid
    }

    /// A selection holding the default model.
    pub fn new() -> (r: ModelSelection)
        ensures
            r@ == default_model(),
    {
        ModelSelection { current: Model::default() }
    }

    /// The current model, never `Invalid`.
    pub fn get(&self) -> (m: Model)
        ensures
            m == self@,
            m != Model::Invalid,
    {
        proof {
            use_type_invariant(self);
        }
        self.current
    }

    /// Selects `m`; `Invalid` is rejected and leaves the selection as it was.
    pub fn set(&mut self, m: Model) -> (r: Result<(), InvalidModel>)
        ensures
            m == Model::Invalid <==> r is Err,
            m == Model::Invalid ==> final(self)@ == old(self)@,
            m != Model::Invalid ==> final(self)@ == m,
    {
        if m == Model::Invalid {
            Err(InvalidModel)
        } else {
            self.current = m;
            Ok(())
        }
    }
}

} // verus!
