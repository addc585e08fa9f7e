use vstd::prelude::*;

verus! {

/// A folder of the backend service, as the lists show it.
#[derive(Clone, Debug, PartialEq, Eq)]
pub struct Folder {
    pub id: u32,
    pub name: String,
}

/// How far the backend service has got with a model.
#[derive(Clone, Copy, Debug, PartialEq, Eq, Structural)]
pub enum ModelState {
    Received,
    Indexing,
    Ready,
}

impl ModelState {
    /// The state's name as the model table shows it.
    pub fn label(&self) -> (r: String)
        ensures
            r@ == model_state_label(*self),
    {
        match self {
            ModelState::Received => String::from_str("received"),
            ModelState::Indexing => String::from_str("indexing"),
            ModelState::Ready => String::from_str("ready"),
        }
    }

    /// The state whose name is `name`, if any.
    pub fn from_label(name: &str) -> (r: Option<ModelState>)
        ensures
            r matches Some(state) ==> model_state_label(state) == name@,
            r is None ==> forall|state: ModelState| model_state_label(state) != name@,
    {
        let name = String::from_str(name);
        if name == String::from_str("received") {
            Some(ModelState::Received)
        } else if name == String::from_str("indexing") {
            Some(ModelState::Indexing)
        } else if name == String::from_str("ready") {
            Some(ModelState::Ready)
        } else {
            None
        }
    }
}

pub open spec fn model_state_label(state: ModelState) -> Seq<char> {
    match state {
        ModelState::Received => "received"@,
        ModelState::Indexing => "indexing"@,
        ModelState::Ready => "ready"@,
    }
}

/// A model of the backend service, as the model table shows it.
#[derive(Clone, Debug, PartialEq, Eq)]
pub struct Model {
    pub uuid: String,
    pub name: String,
    pub state: ModelState,
}

} // verus!
