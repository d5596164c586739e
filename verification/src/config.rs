//! The model registry: named model definitions with their weight paths and
//! per-model default generation parameters, plus name resolution.

use vstd::prelude::*;
use crate::error::Error;
use crate::text::str_eq;

verus! {

/// One named model definition: either a single consolidated weights file
/// (`model`) or a set of component weight files (`diffusion_model` with
/// optional encoders and autoencoder), plus optional defaults for every
/// generation parameter. The guidance and scale defaults are carried as
/// their decimal text, exactly as they are handed to the executable.
#[derive(Debug, Clone)]
pub struct ModelConfig {
    pub model: Option<String>,
    pub clip_l: Option<String>,
    pub clip_g: Option<String>,
    pub t5xxl: Option<String>,
    pub diffusion_model: Option<String>,
    pub vae: Option<String>,
    pub width: Option<u32>,
    pub height: Option<u32>,
    pub steps: Option<u32>,
    pub cfg_scale: Option<String>,
    pub guidance: Option<String>,
    pub sampling_method: Option<String>,
    pub scheduler: Option<String>,
    pub seed: Option<i64>,
    pub batch_count: Option<u32>,
    pub negative_prompt: Option<String>,
}

impl Default for ModelConfig {
    /// A definition with nothing set.
    fn default() -> (r: ModelConfig)
        ensures
            r.model is None,
            r.clip_l is None,
            r.clip_g is None,
            r.t5xxl is None,
            r.diffusion_model is None,
            r.vae is None,
            r.width is None,
            r.height is None,
            r.steps is None,
            r.cfg_scale is None,
            r.guidance is None,
            r.sampling_method is None,
            r.scheduler is None,
            r.seed is None,
            r.batch_count is None,
            r.negative_prompt is None,
    {
        ModelConfig {
            model: None,
            clip_l: None,
            clip_g: None,
            t5xxl: None,
            diffusion_model: None,
            vae: None,
            width: None,
            height: None,
            steps: None,
            cfg_scale: None,
            guidance: None,
            sampling_method: None,
            scheduler: None,
            seed: None,
            batch_count: None,
            negative_prompt: None,
        }
    }
}

/// Whether the definition names at least one usable weights path.
pub open spec fn has_weight_path(m: ModelConfig) -> bool {
    m.model is Some || m.diffusion_model is Some
}

/// A `(label, path)` entry for each weight path that is set, in a fixed
/// order.
pub open spec fn opt_path_entry(label: Seq<char>, p: Option<String>) -> Seq<(Seq<char>, Seq<char>)> {
    match p {
        Some(q) => seq![(label, q@)],
        None => seq![],
    }
}

/// The labelled weight paths of a definition, in declaration order.
pub open spec fn spec_model_paths(m: ModelConfig) -> Seq<(Seq<char>, Seq<char>)> {
    opt_path_entry("model"@, m.model) + opt_path_entry("clip_l"@, m.clip_l) + opt_path_entry(
        "clip_g"@,
        m.clip_g,
    ) + opt_path_entry("t5xxl"@, m.t5xxl) + opt_path_entry("diffusion_model"@, m.diffusion_model)
        + opt_path_entry("vae"@, m.vae)
}

impl ModelConfig {
    /// Whether the definition uses component weight files rather than a
    /// single consolidated file.
    pub fn has_component_paths(&self) -> (r: bool)
        ensures
            r == (self.diffusion_model is Some),
    {
        self.diffusion_model.is_some()
    }

    /// Every weight path that is set, labelled, in declaration order.
    pub fn model_paths<'a>(&'a self) -> (r: Vec<(&'static str, &'a str)>)
        ensures
            r@.len() == spec_model_paths(*self).len(),
            forall|i: int|
                0 <= i < r@.len() ==> (#[trigger] r@[i]).0@ == spec_model_paths(*self)[i].0
                    && r@[i].1@ == spec_model_paths(*self)[i].1,
    {
        let mut v: Vec<(&'static str, &'a str)> = Vec::new();
        let ghost mut sp: Seq<(Seq<char>, Seq<char>)> = Seq::empty();
        if let Some(p) = &self.model {
            v.push(("model", p.as_str()));
        }
        proof {
            sp = opt_path_entry("model"@, self.model);
            assert(v@.len() == sp.len());
        }
        if let Some(p) = &self.clip_l {
            v.push(("clip_l", p.as_str()));
        }
        proof {
            sp = sp + opt_path_entry("clip_l"@, self.clip_l);
            assert(v@.len() == sp.len());
        }
        if let Some(p) = &self.clip_g {
            v.push(("clip_g", p.as_str()));
        }
        proof {
            sp = sp + opt_path_entry("clip_g"@, self.clip_g);
            assert(v@.len() == sp.len());
        }
        if let Some(p) = &self.t5xxl {
            v.push(("t5xxl", p.as_str()));
        }
        proof {
            sp = sp + opt_path_entry("t5xxl"@, self.t5xxl);
            assert(v@.len() == sp.len());
        }
        if let Some(p) = &self.diffusion_model {
            v.push(("diffusion_model", p.as_str()));
        }
        proof {
            sp = sp + opt_path_entry("diffusion_model"@, self.diffusion_model);
            assert(v@.len() == sp.len());
        }
        if let Some(p) = &self.vae {
            v.push(("vae", p.as_str()));
        }
        proof {
            sp = sp + opt_path_entry("vae"@, self.vae);
            assert(v@.len() == sp.len());
            assert(sp == spec_model_paths(*self));
            assert forall|i: int| 0 <= i < v@.len() implies (#[trigger] v@[i]).0@ == sp[i].0
                && v@[i].1@ == sp[i].1 by {}
        }
        v
    }
}

/// The definition the name resolves to: the first entry carrying the name.
pub open spec fn find_model(s: Seq<(String, ModelConfig)>, name: Seq<char>) -> Option<ModelConfig>
    decreases s.len(),
{
    if s.len() == 0 {
        None
    } else if s[0].0@ == name {
        Some(s[0].1)
    } else {
        find_model(s.drop_first(), name)
    }
}

/// The name of the first definition that names no usable weights path.
pub open spec fn find_path_less(s: Seq<(String, ModelConfig)>) -> Option<String>
    decreases s.len(),
{
    if s.len() == 0 {
        None
    } else if !has_weight_path(s[0].1) {
        Some(s[0].0)
    } else {
        find_path_less(s.drop_first())
    }
}

/// The message rejecting a definition that names no weights path.
pub open spec fn spec_invalid_model_msg(name: Seq<char>) -> Seq<char> {
    "model '"@ + name + "' must have either 'model' or 'diffusion_model' path"@
}

/// The whole configuration: an optional path to the generation executable,
/// an optional default model name, and the model registry in file order.
#[derive(Debug, Clone)]
pub struct AppConfig {
    pub sd_cli_path: Option<String>,
    pub default_model: Option<String>,
    pub models: Vec<(String, ModelConfig)>,
}

impl AppConfig {
    /// Accepts the configuration only if every model definition names a
    /// consolidated or a component weights path; rejects the first that
    /// does not, naming it.
    pub fn validate(&self) -> (r: Result<(), Error>)
        ensures
            r is Ok <==> find_path_less(self.models@) is None,
            r matches Err(e) ==> e matches Error::InvalidConfig(m) && m@ == spec_invalid_model_msg(
                find_path_less(self.models@)->0@,
            ),
    {
        let n = self.models.len();
        let mut i: usize = 0;
        proof {
            assert(self.models@.skip(0) =~= self.models@);
        }
        while i < n
            invariant
                0 <= i <= n,
                n == self.models@.len(),
                find_path_less(self.models@) == find_path_less(self.models@.skip(i as int)),
                forall|j: int| 0 <= j < i ==> has_weight_path(#[trigger] self.models@[j].1),
            decreases n - i,
        {
            let entry = &self.models[i];
            proof {
                assert(self.models@.skip(i as int)[0] == self.models@[i as int]);
            }
            if !(entry.1.model.is_some() || entry.1.diffusion_model.is_some()) {
                let msg = String::from_str("model '").concat(entry.0.as_str()).concat(
                    "' must have either 'model' or 'diffusion_model' path",
                );
                proof {
                    assert(msg@ =~= spec_invalid_model_msg(self.models@[i as int].0@));
                }
                return Err(Error::InvalidConfig(msg));
            }
            proof {
                assert(self.models@.skip(i as int).drop_first() =~= self.models@.skip(i + 1));
            }
            i = i + 1;
        }
        proof {
            assert(self.models@.skip(n as int) =~= Seq::<(String, ModelConfig)>::empty());
        }
        Ok(())
    }

    /// Looks the name up in the registry; exact match only.
    pub fn resolve_model(&self, name: &str) -> (r: Result<&ModelConfig, Error>)
        ensures
            r matches Ok(m) ==> find_model(self.models@, name@) == Some(*m),
            r matches Err(e) ==> find_model(self.models@, name@) is None && (e matches
                Error::ModelNotFound { name: n } && n@ == name@),
    {
        let n = self.models.len();
        let mut i: usize = 0;
        proof {
            assert(self.models@.skip(0) =~= self.models@);
        }
        while i < n
            invariant
                0 <= i <= n,
                n == self.models@.len(),
                find_model(self.models@, name@) == find_model(
                    self.models@.skip(i as int),
                    name@,
                ),
            decreases n - i,
        {
            let entry = &self.models[i];
            proof {
                assert(self.models@.skip(i as int)[0] == self.models@[i as int]);
            }
            if str_eq(entry.0.as_str(), name) {
                return Ok(&entry.1);
            }
            proof {
                assert(self.models@.skip(i as int).drop_first() =~= self.models@.skip(i + 1));
            }
            i = i + 1;
        }
        proof {
            assert(self.models@.skip(n as int) =~= Seq::<(String, ModelConfig)>::empty());
        }
        Err(Error::ModelNotFound { name: name.to_owned() })
    }

    /// The model name to use: the explicit name if given, else the
    /// configured default, else a failure.
    pub fn resolve_model_name<'a>(&'a self, name: Option<&'a str>) -> (r: Result<&'a str, Error>)
        ensures
            (match name {
                Some(n) => r matches Ok(m) && m@ == n@,
                None => match self.default_model {
                    Some(d) => r matches Ok(m) && m@ == d@,
                    None => r matches Err(e) && e matches Error::NoDefaultModel,
                },
            }),
    {
        match name {
            Some(n) => Ok(n),
            None => match &self.default_model {
                Some(d) => Ok(d.as_str()),
                None => Err(Error::NoDefaultModel),
            },
        }
    }
}

} // verus!
