//! The provider's list of models, and choosing one of them.

use vstd::prelude::*;
use vstd::string::StringExecFns;
use crate::text::{is_text, same_text, strip_prefix, texts, without_prefix};

verus! {

/// One model as the provider lists it.
#[derive(Clone, Debug, PartialEq, Eq)]
pub struct ModelInfo {
    pub name: String,
    pub display_name: String,
    pub description: String,
    pub supported_generation_methods: Vec<String>,
}

/// The mathematical value of a [`ModelInfo`].
pub struct ModelInfoView {
    pub name: Seq<char>,
    pub display_name: Seq<char>,
    pub description: Seq<char>,
    pub supported_generation_methods: Seq<Seq<char>>,
}

impl View for ModelInfo {
    type V = ModelInfoView;

    open spec fn view(&self) -> ModelInfoView {
        ModelInfoView {
            name: self.name@,
            display_name: self.display_name@,
            description: self.description@,
            supported_generation_methods: texts(self.supported_generation_methods@),
        }
    }
}

impl ModelInfoView {
    /// The model's identifier: its name without the leading `models/`.
    pub open spec fn model_id(self) -> Seq<char> {
        without_prefix(self.name, "models/"@)
    }

    /// Whether the model can generate content.
    pub open spec fn supports_generate_content(self) -> bool {
        self.supported_generation_methods.contains("generateContent"@)
    }
}

/// The values of a sequence of models.
pub open spec fn model_views(models: Seq<ModelInfo>) -> Seq<ModelInfoView> {
    Seq::new(models.len(), |i: int| models[i]@)
}

/// The models of `models` that can generate content, in order.
pub open spec fn supported(models: Seq<ModelInfoView>) -> Seq<ModelInfoView>
    decreases models.len(),
{
    if models.len() == 0 {
        Seq::empty()
    } else {
        let before = supported(models.drop_last());
        if models.last().supports_generate_content() {
            before.push(models.last())
        } else {
            before
        }
    }
}

/// Whether one of `models` has the identifier `id`.
pub open spec fn lists_id(models: Seq<ModelInfoView>, id: Seq<char>) -> bool {
    exists|i: int| 0 <= i < models.len() && (#[trigger] models[i]).model_id() == id
}

impl ModelInfo {
    /// The model's identifier: its name without the leading `models/`.
    pub fn model_id(&self) -> (id: &str)
        ensures
            id@ == self@.model_id(),
    {
        strip_prefix(self.name.as_str(), "models/")
    }

    /// Whether the model can generate content.
    pub fn supports_generate_content(&self) -> (supports: bool)
        ensures
            supports == self@.supports_generate_content(),
    {
        let mut i: usize = 0;
        while i < self.supported_generation_methods.len()
            invariant
                i <= self.supported_generation_methods.len(),
                forall|j: int| 0 <= j < i ==> texts(self.supported_generation_methods@)[j] != "generateContent"@,
            decreases self.supported_generation_methods.len() - i,
        {
            if is_text(&self.supported_generation_methods[i], "generateContent") {
                proof {
                    assert(0 <= i < texts(self.supported_generation_methods@).len());
                    assert(texts(self.supported_generation_methods@)[i as int] == "generateContent"@);
                    assert(texts(self.supported_generation_methods@).contains("generateContent"@));
                }
                return true;
            }
            i += 1;
        }
        false
    }

    /// A copy with the same value.
    pub fn duplicate(&self) -> (copy: ModelInfo)
        ensures
            copy@ == self@,
    {
        let mut methods: Vec<String> = Vec::new();
        let mut i: usize = 0;
        while i < self.supported_generation_methods.len()
            invariant
                i <= self.supported_generation_methods.len(),
                texts(methods@) == texts(self.supported_generation_methods@).take(i as int),
            decreases self.supported_generation_methods.len() - i,
        {
            let ghost before = methods@;
            methods.push(self.supported_generation_methods[i].clone());
            proof {
                let all = texts(self.supported_generation_methods@);
                assert(texts(methods@) =~= texts(before).push(all[i as int]));
                assert(all.take(i + 1) =~= all.take(i as int).push(all[i as int]));
            }
            i += 1;
        }
        proof {
            assert(texts(self.supported_generation_methods@).take(i as int) =~= texts(
                self.supported_generation_methods@,
            ));
        }
        ModelInfo {
            name: self.name.clone(),
            display_name: self.display_name.clone(),
            description: self.description.clone(),
            supported_generation_methods: methods,
        }
    }
}

/// Keeps the models that can generate content, in the order given.
pub fn supported_models(models: &Vec<ModelInfo>) -> (kept: Vec<ModelInfo>)
    ensures
        model_views(kept@) == supported(model_views(models@)),
{
    let mut kept: Vec<ModelInfo> = Vec::new();
    let mut i: usize = 0;
    proof {
        assert(model_views(kept@) =~= supported(model_views(models@).take(0)));
    }
    while i < models.len()
        invariant
            i <= models.len(),
            model_views(kept@) == supported(model_views(models@).take(i as int)),
        decreases models.len() - i,
    {
        let ghost before = kept@;
        proof {
            assert(model_views(models@).take(i + 1).drop_last() =~= model_views(models@).take(
                i as int,
            ));
            assert(model_views(models@).take(i + 1).last() == models@[i as int]@);
        }
        if models[i].supports_generate_content() {
            kept.push(models[i].duplicate());
            proof {
                assert(model_views(kept@) =~= model_views(before).push(models@[i as int]@));
            }
        }
        i += 1;
    }
    proof {
        assert(model_views(models@).take(i as int) =~= model_views(models@));
    }
    kept
}

/// Whether one of `models` has the identifier `id`.
pub fn has_model(models: &Vec<ModelInfo>, id: &str) -> (found: bool)
    ensures
        found == lists_id(model_views(models@), id@),
{
    let mut i: usize = 0;
    while i < models.len()
        invariant
            i <= models.len(),
            forall|j: int| 0 <= j < i ==> (#[trigger] model_views(models@)[j]).model_id() != id@,
        decreases models.len() - i,
    {
        if same_text(models[i].model_id(), id) {
            proof {
                assert(model_views(models@)[i as int].model_id() == id@);
            }
            return true;
        }
        i += 1;
    }
    false
}

impl ModelInfoView {
    /// How the model is listed: its identifier, after its display name
    /// where it has one.
    pub open spec fn label(self) -> Seq<char> {
        if self.display_name.len() == 0 {
            self.model_id()
        } else {
            self.display_name + " ("@ + self.model_id() + ")"@
        }
    }
}

/// The index of the first of `models` that has the identifier `id`.
pub open spec fn first_with_id(models: Seq<ModelInfoView>, id: Seq<char>) -> Option<int> {
    if lists_id(models, id) {
        Some(
            choose|i: int|
                0 <= i < models.len() && (#[trigger] models[i]).model_id() == id && forall|j: int|
                    0 <= j < i ==> (#[trigger] models[j]).model_id() != id,
        )
    } else {
        None
    }
}

impl ModelInfo {
    /// How the model is listed in the settings window.
    pub fn label(&self) -> (text: String)
        ensures
            text@ == self@.label(),
    {
        if self.display_name.as_str().is_empty() {
            String::from_str(self.model_id())
        } else {
            let mut text = self.display_name.clone();
            text.append(" (");
            text.append(self.model_id());
            text.append(")");
            text
        }
    }
}

/// What the settings window shows for the selected model: the display name
/// of the first listed model with that identifier, or the identifier itself
/// where no listed model has it.
pub fn selected_display(models: &Vec<ModelInfo>, selected: &str) -> (text: String)
    ensures
        text@ == (match first_with_id(model_views(models@), selected@) {
            Some(i) => models@[i]@.display_name,
            None => selected@,
        }),
{
    let mut i: usize = 0;
    while i < models.len()
        invariant
            i <= models.len(),
            forall|j: int| 0 <= j < i ==> (#[trigger] model_views(models@)[j]).model_id() != selected@,
        decreases models.len() - i,
    {
        if same_text(models[i].model_id(), selected) {
            proof {
                let views = model_views(models@);
                assert(views[i as int].model_id() == selected@);
                assert(lists_id(views, selected@));
                let k = first_with_id(views, selected@)->0;
                assert(0 <= k < views.len() && views[k].model_id() == selected@);
                assert(forall|j: int| 0 <= j < k ==> (#[trigger] views[j]).model_id() != selected@);
                assert(k == i);
            }
            return models[i].display_name.clone();
        }
        i += 1;
    }
    String::from_str(selected)
}

/// Where loading the list of models stands.
#[derive(Clone, Debug, PartialEq, Eq)]
pub enum ModelLoadState {
    NotLoaded,
    Loading,
    Loaded(Vec<ModelInfo>),
    Error(String),
}

/// What the settings window holds after a fetch of the models came back.
#[derive(Clone, Debug, PartialEq, Eq)]
pub struct ModelSelection {
    pub state: ModelLoadState,
    pub selected_model_id: String,
    pub api_key_validated: bool,
}

/// The message shown when the provider lists no usable model.
pub open spec fn no_models_message() -> Seq<char> {
    "利用可能なモデルが見つかりません"@
}

/// Settles a finished fetch of the models. A failed fetch, or an empty
/// list, is an error and leaves the selection alone. A list of models shows
/// that the API key works; the selection stays if the list holds it, and
/// moves to the first model otherwise.
pub fn check_model_fetch(result: Result<Vec<ModelInfo>, String>, selected: String) -> (out:
    ModelSelection)
    ensures
        match result {
            Err(e) => {
                &&& out.state matches ModelLoadState::Error(m) && m@ == e@
                &&& out.selected_model_id@ == selected@
                &&& !out.api_key_validated
            },
            Ok(models) => if models@.len() == 0 {
                &&& out.state matches ModelLoadState::Error(m) && m@ == no_models_message()
                &&& out.selected_model_id@ == selected@
                &&& !out.api_key_validated
            } else {
                &&& out.state matches ModelLoadState::Loaded(kept) && kept@ == models@
                &&& out.api_key_validated
                &&& out.selected_model_id@ == (if lists_id(model_views(models@), selected@) {
                    selected@
                } else {
                    models@[0]@.model_id()
                })
            },
        },
{
    match result {
        Err(e) => ModelSelection {
            state: ModelLoadState::Error(e),
            selected_model_id: selected,
            api_key_validated: false,
        },
        Ok(models) => {
            if models.len() == 0 {
                ModelSelection {
                    state: ModelLoadState::Error(String::from_str("利用可能なモデルが見つかりません")),
                    selected_model_id: selected,
                    api_key_validated: false,
                }
            } else {
                let id = if has_model(&models, selected.as_str()) {
                    selected
                } else {
                    String::from_str(models[0].model_id())
                };
                ModelSelection {
                    state: ModelLoadState::Loaded(models),
                    selected_model_id: id,
                    api_key_validated: true,
                }
            }
        },
    }
}

} // verus!
