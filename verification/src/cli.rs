//! The command-line surface: the parsed command shapes, the merge of a
//! generate command with the registry, and the rows of the model listing.

use vstd::prelude::*;
use crate::config::{AppConfig, ModelConfig, find_model, spec_model_paths};
use crate::error::Error;
use crate::numfmt::{dec_seq, u32_to_dec};
use crate::sd_cli::{GenerateArgs, opt_or, views_of};
use crate::text::{names_sorted, sort_names};

verus! {

/// The whole command line: an optional configuration path and a command.
#[derive(Debug)]
pub struct Cli {
    pub config: Option<String>,
    pub command: Option<Commands>,
}

/// The commands the tool offers.
#[derive(Debug)]
pub enum Commands {
    /// Generate an image from a text prompt.
    Generate(GenerateCmd),
    /// Start an OpenAI-style HTTP server.
    Serve(ServeCmd),
    /// List the configured models.
    Models,
}

/// The generate command: a required prompt and optional overrides for
/// every generation parameter. The two scale parameters are carried as
/// their decimal text.
#[derive(Debug)]
pub struct GenerateCmd {
    pub model: Option<String>,
    pub prompt: String,
    pub negative_prompt: Option<String>,
    pub width: Option<u32>,
    pub height: Option<u32>,
    pub steps: Option<u32>,
    pub cfg_scale: Option<String>,
    pub guidance: Option<String>,
    pub seed: Option<i64>,
    pub sampler: Option<String>,
    pub scheduler: Option<String>,
    pub output: String,
    pub batch_count: Option<u32>,
}

/// The serve command: the address to bind.
#[derive(Debug)]
pub struct ServeCmd {
    pub host: String,
    pub port: u16,
}

/// The model name a generate command resolves to: the command's own name
/// if given, else the configured default.
pub open spec fn spec_cli_model_name(config: AppConfig, cmd: GenerateCmd) -> Option<Seq<char>> {
    match cmd.model {
        Some(m) => Some(m@),
        None => match config.default_model {
            Some(d) => Some(d@),
            None => None,
        },
    }
}

/// Plans one command-line generation: resolves the model name (explicit
/// name, else the configured default), looks the definition up, and
/// merges its defaults with the command's overrides. A command with no
/// resolvable name fails for want of a default model; an unknown name
/// fails as not found.
pub fn prepare_generate(config: &AppConfig, sd_cli_path: &str, cmd: &GenerateCmd) -> (r: Result<
    GenerateArgs,
    Error,
>)
    ensures
        spec_cli_model_name(*config, *cmd) is None ==> (r matches Err(e) && e matches
            Error::NoDefaultModel),
        (match spec_cli_model_name(*config, *cmd) {
            Some(nm) => find_model(config.models@, nm) is None ==> (r matches Err(e) && (e matches
                Error::ModelNotFound { name } && name@ == nm)),
            None => true,
        }),
        (match spec_cli_model_name(*config, *cmd) {
            Some(nm) => match find_model(config.models@, nm) {
                Some(mc) => r matches Ok(a) && {
                    &&& a.sd_cli_path@ == sd_cli_path@
                    &&& a.model == mc.model
                    &&& a.clip_l == mc.clip_l
                    &&& a.clip_g == mc.clip_g
                    &&& a.t5xxl == mc.t5xxl
                    &&& a.diffusion_model == mc.diffusion_model
                    &&& a.vae == mc.vae
                    &&& a.prompt == cmd.prompt
                    &&& a.negative_prompt == (if cmd.negative_prompt is Some {
                        cmd.negative_prompt
                    } else {
                        mc.negative_prompt
                    })
                    &&& a.width == (match cmd.width {
                        Some(w) => w,
                        None => opt_or(mc.width, 512u32),
                    })
                    &&& a.height == (match cmd.height {
                        Some(h) => h,
                        None => opt_or(mc.height, 512u32),
                    })
                    &&& a.steps == (match cmd.steps {
                        Some(s) => s,
                        None => opt_or(mc.steps, 20u32),
                    })
                    &&& a.cfg_scale@ == (match cmd.cfg_scale {
                        Some(c) => c@,
                        None => match mc.cfg_scale {
                            Some(s) => s@,
                            None => "7"@,
                        },
                    })
                    &&& a.guidance == (if cmd.guidance is Some {
                        cmd.guidance
                    } else {
                        mc.guidance
                    })
                    &&& a.seed == (match cmd.seed {
                        Some(s) => s,
                        None => opt_or(mc.seed, -1i64),
                    })
                    &&& a.sampling_method@ == (match cmd.sampler {
                        Some(s) => s@,
                        None => match mc.sampling_method {
                            Some(m) => m@,
                            None => "euler_a"@,
                        },
                    })
                    &&& a.scheduler@ == (match cmd.scheduler {
                        Some(s) => s@,
                        None => match mc.scheduler {
                            Some(m) => m@,
                            None => "discrete"@,
                        },
                    })
                    &&& a.batch_count == (match cmd.batch_count {
                        Some(b) => b,
                        None => opt_or(mc.batch_count, 1u32),
                    })
                    &&& a.output == cmd.output
                },
                None => true,
            },
            None => true,
        }),
{
    let explicit: Option<&str> = match &cmd.model {
        Some(m) => Some(m.as_str()),
        None => None,
    };
    let model_name = match config.resolve_model_name(explicit) {
        Ok(n) => n,
        Err(e) => {
            return Err(e);
        },
    };
    let model_config = match config.resolve_model(model_name) {
        Ok(mc) => mc,
        Err(e) => {
            return Err(e);
        },
    };
    let mut a = GenerateArgs::from_model_config(sd_cli_path, model_config);
    a.prompt = cmd.prompt.clone();
    a.output = cmd.output.clone();
    if let Some(neg) = &cmd.negative_prompt {
        a.negative_prompt = Some(neg.clone());
    }
    if let Some(w) = cmd.width {
        a.width = w;
    }
    if let Some(h) = cmd.height {
        a.height = h;
    }
    if let Some(s) = cmd.steps {
        a.steps = s;
    }
    if let Some(c) = &cmd.cfg_scale {
        a.cfg_scale = c.clone();
    }
    if let Some(g) = &cmd.guidance {
        a.guidance = Some(g.clone());
    }
    if let Some(s) = cmd.seed {
        a.seed = s;
    }
    if let Some(m) = &cmd.sampler {
        a.sampling_method = m.clone();
    }
    if let Some(s) = &cmd.scheduler {
        a.scheduler = s.clone();
    }
    if let Some(b) = cmd.batch_count {
        a.batch_count = b;
    }
    Ok(a)
}

/// Sequence joined with a comma and a space between the parts.
pub open spec fn join_comma(parts: Seq<Seq<char>>) -> Seq<char>
    decreases parts.len(),
{
    if parts.len() == 0 {
        Seq::empty()
    } else if parts.len() == 1 {
        parts[0]
    } else {
        join_comma(parts.drop_last()) + ", "@ + parts.last()
    }
}

/// The labels of the weight paths a definition sets.
pub open spec fn spec_path_labels(m: ModelConfig) -> Seq<Seq<char>> {
    spec_model_paths(m).map_values(|p: (Seq<char>, Seq<char>)| p.0)
}

/// The defaults summary of a definition: the size when a width is set
/// (with the width standing in for a missing height), the step count
/// when set, and the sampling method when set.
pub open spec fn spec_default_parts(m: ModelConfig) -> Seq<Seq<char>> {
    (match m.width {
        Some(w) => seq![dec_seq(w as nat) + "x"@ + dec_seq(opt_or(m.height, w) as nat)],
        None => seq![],
    }) + (match m.steps {
        Some(s) => seq![dec_seq(s as nat) + " steps"@],
        None => seq![],
    }) + (match m.sampling_method {
        Some(s) => seq![s@],
        None => seq![],
    })
}

/// The registered model names in code-point order, for the listing: the
/// same names, as many times each, as the registry holds.
pub fn sorted_model_names(config: &AppConfig) -> (r: Vec<String>)
    ensures
        names_sorted(r@),
        r@.to_multiset() == config.models@.map_values(|e: (String, ModelConfig)| e.0).to_multiset(),
{
    let n = config.models.len();
    let mut names: Vec<String> = Vec::new();
    let mut i: usize = 0;
    while i < n
        invariant
            0 <= i <= n,
            n == config.models@.len(),
            names@ == config.models@.subrange(0, i as int).map_values(
                |e: (String, ModelConfig)| e.0,
            ),
        decreases n - i,
    {
        names.push(config.models[i].0.clone());
        proof {
            assert(names@ =~= config.models@.subrange(0, i + 1).map_values(
                |e: (String, ModelConfig)| e.0,
            ));
        }
        i = i + 1;
    }
    proof {
        assert(config.models@.subrange(0, n as int) =~= config.models@);
    }
    sort_names(&names)
}

/// One row of the model listing.
#[derive(Debug)]
pub struct ModelRow {
    pub name: String,
    pub kind: String,
    pub files: String,
    pub status: String,
    pub defaults: String,
}

fn join_comma_exec(parts: &Vec<String>) -> (r: String)
    ensures
        r@ == join_comma(views_of(parts@)),
{
    let n = parts.len();
    let mut r = String::new();
    let mut i: usize = 0;
    while i < n
        invariant
            0 <= i <= n,
            n == parts@.len(),
            r@ == join_comma(views_of(parts@.subrange(0, i as int))),
        decreases n - i,
    {
        if i > 0 {
            r.append(", ");
        }
        r.append(parts[i].as_str());
        proof {
            let prev = views_of(parts@.subrange(0, i as int));
            let cur = views_of(parts@.subrange(0, i + 1));
            assert(cur.drop_last() =~= prev);
            assert(cur.last() == parts@[i as int]@);
        }
        i = i + 1;
    }
    proof {
        assert(parts@.subrange(0, n as int) =~= parts@);
    }
    r
}

/// The row describing one model: its name, whether it is a component or
/// a single-file model, the labels of its weight files, whether every
/// weight file is present (the caller says), and its defaults summary.
pub fn model_row(name: &str, m: &ModelConfig, files_present: bool) -> (r: ModelRow)
    ensures
        r.name@ == name@,
        r.kind@ == (if m.diffusion_model is Some {
            "component"@
        } else {
            "single"@
        }),
        r.files@ == join_comma(spec_path_labels(*m)),
        r.status@ == (if files_present {
            "ok"@
        } else {
            "MISSING"@
        }),
        r.defaults@ == join_comma(spec_default_parts(*m)),
{
    let kind = if m.has_component_paths() {
        String::from_str("component")
    } else {
        String::from_str("single")
    };
    let paths = m.model_paths();
    let mut labels: Vec<String> = Vec::new();
    let n = paths.len();
    let mut i: usize = 0;
    while i < n
        invariant
            0 <= i <= n,
            n == paths@.len(),
            labels@.len() == i,
            forall|j: int| 0 <= j < n ==> (#[trigger] paths@[j]).0@ == spec_model_paths(*m)[j].0,
            spec_model_paths(*m).len() == n,
            forall|j: int| 0 <= j < i ==> (#[trigger] labels@[j])@ == spec_model_paths(*m)[j].0,
        decreases n - i,
    {
        labels.push(paths[i].0.to_owned());
        i = i + 1;
    }
    proof {
        assert(views_of(labels@) =~= spec_path_labels(*m));
    }
    let files = join_comma_exec(&labels);
    let mut parts: Vec<String> = Vec::new();
    if let Some(w) = m.width {
        let h = match m.height {
            Some(h) => h,
            None => w,
        };
        let part = u32_to_dec(w).concat("x").concat(u32_to_dec(h).as_str());
        proof {
            reveal_strlit("x");
        }
        parts.push(part);
    }
    proof {
        assert(views_of(parts@) =~= (match m.width {
            Some(w) => seq![dec_seq(w as nat) + "x"@ + dec_seq(opt_or(m.height, w) as nat)],
            None => Seq::<Seq<char>>::empty(),
        }));
    }
    let ghost parts1 = views_of(parts@);
    if let Some(s) = m.steps {
        let part = u32_to_dec(s).concat(" steps");
        parts.push(part);
    }
    proof {
        assert(views_of(parts@) =~= parts1 + (match m.steps {
            Some(s) => seq![dec_seq(s as nat) + " steps"@],
            None => Seq::<Seq<char>>::empty(),
        }));
    }
    let ghost parts2 = views_of(parts@);
    if let Some(sm) = &m.sampling_method {
        parts.push(sm.clone());
    }
    proof {
        assert(views_of(parts@) =~= parts2 + (match m.sampling_method {
            Some(s) => seq![s@],
            None => Seq::<Seq<char>>::empty(),
        }));
        assert(views_of(parts@) =~= spec_default_parts(*m));
    }
    let defaults = join_comma_exec(&parts);
    let status = if files_present {
        String::from_str("ok")
    } else {
        String::from_str("MISSING")
    };
    ModelRow { name: name.to_owned(), kind, files, status, defaults }
}

} // verus!
