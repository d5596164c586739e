//! The argument builder: merging a model definition's defaults with
//! request overrides into the exact, order-stable argument list for the
//! external generation executable, and mapping its exit status into the
//! error taxonomy.

use vstd::prelude::*;
use crate::config::ModelConfig;
use crate::error::Error;
use crate::numfmt::{dec_seq, dec_seq_signed, i64_to_dec, u32_to_dec};
use crate::text::clone_opt_string;

verus! {

/// The fully merged inputs of one invocation of the generation executable.
/// Numeric parameters that the executable reads as decimals are held as
/// integers; the two scale parameters are held as their decimal text.
#[derive(Debug, Clone)]
pub struct GenerateArgs {
    pub sd_cli_path: String,
    pub model: Option<String>,
    pub clip_l: Option<String>,
    pub clip_g: Option<String>,
    pub t5xxl: Option<String>,
    pub diffusion_model: Option<String>,
    pub vae: Option<String>,
    pub prompt: String,
    pub negative_prompt: Option<String>,
    pub width: u32,
    pub height: u32,
    pub steps: u32,
    pub cfg_scale: String,
    pub guidance: Option<String>,
    pub seed: i64,
    pub sampling_method: String,
    pub scheduler: String,
    pub batch_count: u32,
    pub output: String,
}

/// The value if set, else the fallback.
pub open spec fn opt_or<T>(o: Option<T>, d: T) -> T {
    match o {
        Some(x) => x,
        None => d,
    }
}

/// A `(flag, value)` pair when the value is set, else nothing.
pub open spec fn opt_flag(flag: Seq<char>, v: Option<String>) -> Seq<(Seq<char>, Seq<char>)> {
    match v {
        Some(s) => seq![(flag, s@)],
        None => seq![],
    }
}

/// The weight-path flags: one flag per path that is set, in a fixed order.
pub open spec fn model_path_pairs(a: GenerateArgs) -> Seq<(Seq<char>, Seq<char>)> {
    opt_flag("-m"@, a.model) + opt_flag("--clip_l"@, a.clip_l) + opt_flag("--clip_g"@, a.clip_g)
        + opt_flag("--t5xxl"@, a.t5xxl) + opt_flag("--diffusion-model"@, a.diffusion_model)
        + opt_flag("--vae"@, a.vae)
}

/// The negative-prompt flag, present only for a non-empty negative prompt.
pub open spec fn neg_prompt_pairs(a: GenerateArgs) -> Seq<(Seq<char>, Seq<char>)> {
    match a.negative_prompt {
        Some(n) => if n@.len() > 0 {
            seq![("-n"@, n@)]
        } else {
            seq![]
        },
        None => seq![],
    }
}

/// The batch-count flag, present only when more than one image is asked for.
pub open spec fn batch_pairs(a: GenerateArgs) -> Seq<(Seq<char>, Seq<char>)> {
    if a.batch_count > 1 {
        seq![("-b"@, dec_seq(a.batch_count as nat))]
    } else {
        seq![]
    }
}

/// The generation-parameter flags, in a fixed order, ending with the
/// output path.
pub open spec fn param_pairs(a: GenerateArgs) -> Seq<(Seq<char>, Seq<char>)> {
    seq![("-p"@, a.prompt@)] + neg_prompt_pairs(a) + seq![
        ("-W"@, dec_seq(a.width as nat)),
        ("-H"@, dec_seq(a.height as nat)),
        ("--steps"@, dec_seq(a.steps as nat)),
        ("--cfg-scale"@, a.cfg_scale@),
    ] + opt_flag("--guidance"@, a.guidance) + seq![
        ("-s"@, dec_seq_signed(a.seed as int)),
        ("--sampling-method"@, a.sampling_method@),
        ("--scheduler"@, a.scheduler@),
    ] + batch_pairs(a) + seq![("-o"@, a.output@)]
}

/// Every `(flag, value)` pair of the invocation, in emission order.
pub open spec fn arg_pairs(a: GenerateArgs) -> Seq<(Seq<char>, Seq<char>)> {
    model_path_pairs(a) + param_pairs(a)
}

/// The pairs laid out flat, flag before value.
pub open spec fn flatten_pairs(ps: Seq<(Seq<char>, Seq<char>)>) -> Seq<Seq<char>>
    decreases ps.len(),
{
    if ps.len() == 0 {
        Seq::empty()
    } else {
        flatten_pairs(ps.drop_last()) + seq![ps.last().0, ps.last().1]
    }
}

/// The views of a sequence of strings.
pub open spec fn views_of(v: Seq<String>) -> Seq<Seq<char>> {
    v.map_values(|s: String| s@)
}

/// Whether some pair carries the flag.
pub open spec fn has_flag(ps: Seq<(Seq<char>, Seq<char>)>, f: Seq<char>) -> bool
    decreases ps.len(),
{
    if ps.len() == 0 {
        false
    } else {
        ps[0].0 == f || has_flag(ps.drop_first(), f)
    }
}

proof fn lemma_flatten_push(ps: Seq<(Seq<char>, Seq<char>)>, p: (Seq<char>, Seq<char>))
    ensures
        flatten_pairs(ps.push(p)) == flatten_pairs(ps) + seq![p.0, p.1],
{
    assert(ps.push(p).drop_last() =~= ps);
    assert(ps.push(p).last() == p);
}

proof fn lemma_has_flag_concat(
    x: Seq<(Seq<char>, Seq<char>)>,
    y: Seq<(Seq<char>, Seq<char>)>,
    f: Seq<char>,
)
    ensures
        has_flag(x + y, f) == (has_flag(x, f) || has_flag(y, f)),
    decreases x.len(),
{
    if x.len() == 0 {
        assert(x + y =~= y);
    } else {
        assert((x + y).drop_first() =~= x.drop_first() + y);
        assert((x + y)[0] == x[0]);
        lemma_has_flag_concat(x.drop_first(), y, f);
    }
}

proof fn lemma_has_flag_single(p: (Seq<char>, Seq<char>), f: Seq<char>)
    ensures
        has_flag(seq![p], f) == (p.0 == f),
{
    assert(seq![p].drop_first() =~= Seq::<(Seq<char>, Seq<char>)>::empty());
    assert(!has_flag(Seq::<(Seq<char>, Seq<char>)>::empty(), f));
}

proof fn lemma_has_flag_opt(flag: Seq<char>, v: Option<String>, f: Seq<char>)
    ensures
        has_flag(opt_flag(flag, v), f) == (v is Some && flag == f),
{
    match v {
        Some(s) => lemma_has_flag_single((flag, s@), f),
        None => (),
    }
}

/// Which flags the pair list of an invocation carries: each path flag is
/// present exactly when its path is set, the negative-prompt flag exactly
/// when a non-empty negative prompt resolved, the guidance flag exactly
/// when a distilled guidance resolved, and the batch flag exactly when
/// more than one image is asked for.
pub proof fn lemma_flag_presence(a: GenerateArgs)
    ensures
        has_flag(arg_pairs(a), "-m"@) <==> a.model is Some,
        has_flag(arg_pairs(a), "--clip_l"@) <==> a.clip_l is Some,
        has_flag(arg_pairs(a), "--clip_g"@) <==> a.clip_g is Some,
        has_flag(arg_pairs(a), "--t5xxl"@) <==> a.t5xxl is Some,
        has_flag(arg_pairs(a), "--diffusion-model"@) <==> a.diffusion_model is Some,
        has_flag(arg_pairs(a), "--vae"@) <==> a.vae is Some,
        has_flag(arg_pairs(a), "-n"@) <==> (a.negative_prompt matches Some(n) && n@.len() > 0),
        has_flag(arg_pairs(a), "--guidance"@) <==> a.guidance is Some,
        has_flag(arg_pairs(a), "-b"@) <==> a.batch_count > 1,
{
    reveal_strlit("-m");
    reveal_strlit("--clip_l");
    reveal_strlit("--clip_g");
    reveal_strlit("--t5xxl");
    reveal_strlit("--diffusion-model");
    reveal_strlit("--vae");
    reveal_strlit("-p");
    reveal_strlit("-n");
    reveal_strlit("-W");
    reveal_strlit("-H");
    reveal_strlit("--steps");
    reveal_strlit("--cfg-scale");
    reveal_strlit("--guidance");
    reveal_strlit("-s");
    reveal_strlit("--sampling-method");
    reveal_strlit("--scheduler");
    reveal_strlit("-b");
    reveal_strlit("-o");
    assert("-m"@.len() == 2 && "-m"@[1] == 'm');
    assert("-p"@.len() == 2 && "-p"@[1] == 'p');
    assert("-n"@.len() == 2 && "-n"@[1] == 'n');
    assert("-W"@.len() == 2 && "-W"@[1] == 'W');
    assert("-H"@.len() == 2 && "-H"@[1] == 'H');
    assert("-s"@.len() == 2 && "-s"@[1] == 's');
    assert("-b"@.len() == 2 && "-b"@[1] == 'b');
    assert("-o"@.len() == 2 && "-o"@[1] == 'o');
    assert("--clip_l"@.len() == 8 && "--clip_l"@[7] == 'l');
    assert("--clip_g"@.len() == 8 && "--clip_g"@[7] == 'g');
    assert("--t5xxl"@.len() == 7 && "--t5xxl"@[2] == 't');
    assert("--steps"@.len() == 7 && "--steps"@[2] == 's');
    assert("--diffusion-model"@.len() == 17 && "--diffusion-model"@[2] == 'd');
    assert("--sampling-method"@.len() == 17 && "--sampling-method"@[2] == 's');
    assert("--vae"@.len() == 5);
    assert("--cfg-scale"@.len() == 11 && "--cfg-scale"@[2] == 'c');
    assert("--scheduler"@.len() == 11 && "--scheduler"@[2] == 's');
    assert("--guidance"@.len() == 10);
    lemma_flag_in_args(a, "-m"@);
    lemma_flag_in_args(a, "--clip_l"@);
    lemma_flag_in_args(a, "--clip_g"@);
    lemma_flag_in_args(a, "--t5xxl"@);
    lemma_flag_in_args(a, "--diffusion-model"@);
    lemma_flag_in_args(a, "--vae"@);
    lemma_flag_in_args(a, "-n"@);
    lemma_flag_in_args(a, "--guidance"@);
    lemma_flag_in_args(a, "-b"@);
}

/// Whether the given flag text is one the invocation emits.
pub open spec fn flag_expected(a: GenerateArgs, f: Seq<char>) -> bool {
    ||| (a.model is Some && f == "-m"@)
    ||| (a.clip_l is Some && f == "--clip_l"@)
    ||| (a.clip_g is Some && f == "--clip_g"@)
    ||| (a.t5xxl is Some && f == "--t5xxl"@)
    ||| (a.diffusion_model is Some && f == "--diffusion-model"@)
    ||| (a.vae is Some && f == "--vae"@)
    ||| f == "-p"@
    ||| (a.negative_prompt matches Some(n) && n@.len() > 0 && f == "-n"@)
    ||| f == "-W"@
    ||| f == "-H"@
    ||| f == "--steps"@
    ||| f == "--cfg-scale"@
    ||| (a.guidance is Some && f == "--guidance"@)
    ||| f == "-s"@
    ||| f == "--sampling-method"@
    ||| f == "--scheduler"@
    ||| (a.batch_count > 1 && f == "-b"@)
    ||| f == "-o"@
}

proof fn lemma_flag_in_args(a: GenerateArgs, f: Seq<char>)
    ensures
        has_flag(arg_pairs(a), f) == flag_expected(a, f),
{
    let m1 = opt_flag("-m"@, a.model);
    let m2 = opt_flag("--clip_l"@, a.clip_l);
    let m3 = opt_flag("--clip_g"@, a.clip_g);
    let m4 = opt_flag("--t5xxl"@, a.t5xxl);
    let m5 = opt_flag("--diffusion-model"@, a.diffusion_model);
    let m6 = opt_flag("--vae"@, a.vae);
    lemma_has_flag_concat(m1 + m2 + m3 + m4 + m5, m6, f);
    lemma_has_flag_concat(m1 + m2 + m3 + m4, m5, f);
    lemma_has_flag_concat(m1 + m2 + m3, m4, f);
    lemma_has_flag_concat(m1 + m2, m3, f);
    lemma_has_flag_concat(m1, m2, f);
    lemma_has_flag_opt("-m"@, a.model, f);
    lemma_has_flag_opt("--clip_l"@, a.clip_l, f);
    lemma_has_flag_opt("--clip_g"@, a.clip_g, f);
    lemma_has_flag_opt("--t5xxl"@, a.t5xxl, f);
    lemma_has_flag_opt("--diffusion-model"@, a.diffusion_model, f);
    lemma_has_flag_opt("--vae"@, a.vae, f);
    let p1 = seq![("-p"@, a.prompt@)];
    let p2 = neg_prompt_pairs(a);
    let p3 = seq![
        ("-W"@, dec_seq(a.width as nat)),
        ("-H"@, dec_seq(a.height as nat)),
        ("--steps"@, dec_seq(a.steps as nat)),
        ("--cfg-scale"@, a.cfg_scale@),
    ];
    let p4 = opt_flag("--guidance"@, a.guidance);
    let p5 = seq![
        ("-s"@, dec_seq_signed(a.seed as int)),
        ("--sampling-method"@, a.sampling_method@),
        ("--scheduler"@, a.scheduler@),
    ];
    let p6 = batch_pairs(a);
    let p7 = seq![("-o"@, a.output@)];
    lemma_has_flag_concat(p1 + p2 + p3 + p4 + p5 + p6, p7, f);
    lemma_has_flag_concat(p1 + p2 + p3 + p4 + p5, p6, f);
    lemma_has_flag_concat(p1 + p2 + p3 + p4, p5, f);
    lemma_has_flag_concat(p1 + p2 + p3, p4, f);
    lemma_has_flag_concat(p1 + p2, p3, f);
    lemma_has_flag_concat(p1, p2, f);
    lemma_has_flag_single(("-p"@, a.prompt@), f);
    match a.negative_prompt {
        Some(n) => {
            if n@.len() > 0 {
                lemma_has_flag_single(("-n"@, n@), f);
            }
        },
        None => (),
    }
    lemma_has_flag_small(p3, f);
    lemma_has_flag_opt("--guidance"@, a.guidance, f);
    lemma_has_flag_small(p5, f);
    if a.batch_count > 1 {
        lemma_has_flag_single(("-b"@, dec_seq(a.batch_count as nat)), f);
    }
    lemma_has_flag_single(("-o"@, a.output@), f);
    lemma_has_flag_concat(model_path_pairs(a), param_pairs(a), f);
}

/// For a model definition with only a consolidated weights path, the built
/// argument list carries the consolidated-model flag and none of the
/// component-path flags; for a component-only definition, the reverse.
pub proof fn lemma_model_flag_exclusivity(a: GenerateArgs)
    ensures
        a.model is Some && a.clip_l is None && a.clip_g is None && a.t5xxl is None
            && a.diffusion_model is None && a.vae is None ==> (has_flag(arg_pairs(a), "-m"@)
            && !has_flag(arg_pairs(a), "--clip_l"@) && !has_flag(arg_pairs(a), "--clip_g"@)
            && !has_flag(arg_pairs(a), "--t5xxl"@) && !has_flag(
            arg_pairs(a),
            "--diffusion-model"@,
        ) && !has_flag(arg_pairs(a), "--vae"@)),
        a.model is None && a.diffusion_model is Some ==> (!has_flag(arg_pairs(a), "-m"@)
            && has_flag(arg_pairs(a), "--diffusion-model"@)),
{
    lemma_flag_presence(a);
}

/// The negative-prompt flag appears exactly when a non-empty negative
/// prompt resolved.
pub proof fn lemma_negative_prompt_flag(a: GenerateArgs)
    ensures
        has_flag(arg_pairs(a), "-n"@) <==> (a.negative_prompt matches Some(n) && n@.len() > 0),
{
    lemma_flag_presence(a);
}

/// The batch flag appears exactly when the resolved batch count exceeds one.
pub proof fn lemma_batch_count_flag(a: GenerateArgs)
    ensures
        has_flag(arg_pairs(a), "-b"@) <==> a.batch_count > 1,
{
    lemma_flag_presence(a);
}

fn push_pair(v: &mut Vec<String>, flag: &'static str, value: String)
    ensures
        views_of(final(v)@) == views_of(old(v)@) + seq![flag@, value@],
{
    let ghost val = value@;
    v.push(flag.to_owned());
    v.push(value);
    proof {
        assert(views_of(v@) =~= views_of(old(v)@) + seq![flag@, val]);
    }
}

proof fn lemma_flatten_concat(x: Seq<(Seq<char>, Seq<char>)>, y: Seq<(Seq<char>, Seq<char>)>)
    ensures
        flatten_pairs(x + y) == flatten_pairs(x) + flatten_pairs(y),
    decreases y.len(),
{
    if y.len() == 0 {
        assert(x + y =~= x);
        assert(flatten_pairs(x) + flatten_pairs(y) =~= flatten_pairs(x));
    } else {
        assert((x + y).drop_last() =~= x + y.drop_last());
        assert((x + y).last() == y.last());
        lemma_flatten_concat(x, y.drop_last());
        assert(flatten_pairs(x) + (flatten_pairs(y.drop_last()) + seq![y.last().0, y.last().1])
            =~= (flatten_pairs(x) + flatten_pairs(y.drop_last())) + seq![
            y.last().0,
            y.last().1,
        ]);
    }
}

#[verifier::spinoff_prover]
#[verifier::rlimit(100)]
fn emit_model_paths(a: &GenerateArgs, v: &mut Vec<String>)
    ensures
        views_of(final(v)@) == views_of(old(v)@) + flatten_pairs(model_path_pairs(*a)),
{
    let ghost mut gp: Seq<(Seq<char>, Seq<char>)> = Seq::empty();
    proof {
        assert(views_of(v@) + flatten_pairs(gp) =~= views_of(v@));
    }
    if let Some(m) = &a.model {
        push_pair(v, "-m", m.clone());
        proof {
            lemma_flatten_push(gp, ("-m"@, m@));
            gp = gp.push(("-m"@, m@));
        }
    }
    if let Some(p) = &a.clip_l {
        push_pair(v, "--clip_l", p.clone());
        proof {
            lemma_flatten_push(gp, ("--clip_l"@, p@));
            gp = gp.push(("--clip_l"@, p@));
        }
    }
    if let Some(p) = &a.clip_g {
        push_pair(v, "--clip_g", p.clone());
        proof {
            lemma_flatten_push(gp, ("--clip_g"@, p@));
            gp = gp.push(("--clip_g"@, p@));
        }
    }
    if let Some(p) = &a.t5xxl {
        push_pair(v, "--t5xxl", p.clone());
        proof {
            lemma_flatten_push(gp, ("--t5xxl"@, p@));
            gp = gp.push(("--t5xxl"@, p@));
        }
    }
    if let Some(p) = &a.diffusion_model {
        push_pair(v, "--diffusion-model", p.clone());
        proof {
            lemma_flatten_push(gp, ("--diffusion-model"@, p@));
            gp = gp.push(("--diffusion-model"@, p@));
        }
    }
    if let Some(p) = &a.vae {
        push_pair(v, "--vae", p.clone());
        proof {
            lemma_flatten_push(gp, ("--vae"@, p@));
            gp = gp.push(("--vae"@, p@));
        }
    }
    proof {
        assert(gp =~= model_path_pairs(*a));
    }
}

#[verifier::spinoff_prover]
#[verifier::rlimit(100)]
fn emit_params(a: &GenerateArgs, v: &mut Vec<String>)
    ensures
        views_of(final(v)@) == views_of(old(v)@) + flatten_pairs(param_pairs(*a)),
{
    let ghost mut gp: Seq<(Seq<char>, Seq<char>)> = Seq::empty();
    proof {
        assert(views_of(v@) + flatten_pairs(gp) =~= views_of(v@));
    }
    push_pair(v, "-p", a.prompt.clone());
    proof {
        lemma_flatten_push(gp, ("-p"@, a.prompt@));
        gp = gp.push(("-p"@, a.prompt@));
    }
    if let Some(neg) = &a.negative_prompt {
        if !neg.as_str().is_empty() {
            push_pair(v, "-n", neg.clone());
            proof {
                lemma_flatten_push(gp, ("-n"@, neg@));
                gp = gp.push(("-n"@, neg@));
            }
        }
    }
    proof {
        assert(gp =~= seq![("-p"@, a.prompt@)] + neg_prompt_pairs(*a));
    }
    push_pair(v, "-W", u32_to_dec(a.width));
    proof {
        lemma_flatten_push(gp, ("-W"@, dec_seq(a.width as nat)));
        gp = gp.push(("-W"@, dec_seq(a.width as nat)));
    }
    push_pair(v, "-H", u32_to_dec(a.height));
    proof {
        lemma_flatten_push(gp, ("-H"@, dec_seq(a.height as nat)));
        gp = gp.push(("-H"@, dec_seq(a.height as nat)));
    }
    push_pair(v, "--steps", u32_to_dec(a.steps));
    proof {
        lemma_flatten_push(gp, ("--steps"@, dec_seq(a.steps as nat)));
        gp = gp.push(("--steps"@, dec_seq(a.steps as nat)));
    }
    push_pair(v, "--cfg-scale", a.cfg_scale.clone());
    proof {
        lemma_flatten_push(gp, ("--cfg-scale"@, a.cfg_scale@));
        gp = gp.push(("--cfg-scale"@, a.cfg_scale@));
        assert(gp =~= seq![("-p"@, a.prompt@)] + neg_prompt_pairs(*a) + seq![
            ("-W"@, dec_seq(a.width as nat)),
            ("-H"@, dec_seq(a.height as nat)),
            ("--steps"@, dec_seq(a.steps as nat)),
            ("--cfg-scale"@, a.cfg_scale@),
        ]);
    }
    if let Some(g) = &a.guidance {
        push_pair(v, "--guidance", g.clone());
        proof {
            lemma_flatten_push(gp, ("--guidance"@, g@));
            gp = gp.push(("--guidance"@, g@));
        }
    }
    push_pair(v, "-s", i64_to_dec(a.seed));
    proof {
        lemma_flatten_push(gp, ("-s"@, dec_seq_signed(a.seed as int)));
        gp = gp.push(("-s"@, dec_seq_signed(a.seed as int)));
    }
    push_pair(v, "--sampling-method", a.sampling_method.clone());
    proof {
        lemma_flatten_push(gp, ("--sampling-method"@, a.sampling_method@));
        gp = gp.push(("--sampling-method"@, a.sampling_method@));
    }
    push_pair(v, "--scheduler", a.scheduler.clone());
    proof {
        lemma_flatten_push(gp, ("--scheduler"@, a.scheduler@));
        gp = gp.push(("--scheduler"@, a.scheduler@));
        assert(gp =~= seq![("-p"@, a.prompt@)] + neg_prompt_pairs(*a) + seq![
            ("-W"@, dec_seq(a.width as nat)),
            ("-H"@, dec_seq(a.height as nat)),
            ("--steps"@, dec_seq(a.steps as nat)),
            ("--cfg-scale"@, a.cfg_scale@),
        ] + opt_flag("--guidance"@, a.guidance) + seq![
            ("-s"@, dec_seq_signed(a.seed as int)),
            ("--sampling-method"@, a.sampling_method@),
            ("--scheduler"@, a.scheduler@),
        ]);
    }
    if a.batch_count > 1 {
        push_pair(v, "-b", u32_to_dec(a.batch_count));
        proof {
            lemma_flatten_push(gp, ("-b"@, dec_seq(a.batch_count as nat)));
            gp = gp.push(("-b"@, dec_seq(a.batch_count as nat)));
        }
    }
    push_pair(v, "-o", a.output.clone());
    proof {
        lemma_flatten_push(gp, ("-o"@, a.output@));
        gp = gp.push(("-o"@, a.output@));
        assert(gp =~= param_pairs(*a));
    }
}

impl GenerateArgs {
    /// A fresh invocation from a model definition alone: every weight path
    /// and the negative prompt are taken over, every generation parameter
    /// takes the definition's default when set and the hard-coded fallback
    /// otherwise, the prompt is empty and the output path is the default.
    pub fn from_model_config(sd_cli_path: &str, model_config: &ModelConfig) -> (r: GenerateArgs)
        ensures
            r.sd_cli_path@ == sd_cli_path@,
            r.model == model_config.model,
            r.clip_l == model_config.clip_l,
            r.clip_g == model_config.clip_g,
            r.t5xxl == model_config.t5xxl,
            r.diffusion_model == model_config.diffusion_model,
            r.vae == model_config.vae,
            r.prompt@ == Seq::<char>::empty(),
            r.negative_prompt == model_config.negative_prompt,
            r.width == opt_or(model_config.width, 512u32),
            r.height == opt_or(model_config.height, 512u32),
            r.steps == opt_or(model_config.steps, 20u32),
            r.cfg_scale@ == (match model_config.cfg_scale {
                Some(s) => s@,
                None => "7"@,
            }),
            r.guidance == model_config.guidance,
            r.seed == opt_or(model_config.seed, -1i64),
            r.sampling_method@ == (match model_config.sampling_method {
                Some(s) => s@,
                None => "euler_a"@,
            }),
            r.scheduler@ == (match model_config.scheduler {
                Some(s) => s@,
                None => "discrete"@,
            }),
            r.batch_count == opt_or(model_config.batch_count, 1u32),
            r.output@ == "output.png"@,
    {
        GenerateArgs {
            sd_cli_path: sd_cli_path.to_owned(),
            model: clone_opt_string(&model_config.model),
            clip_l: clone_opt_string(&model_config.clip_l),
            clip_g: clone_opt_string(&model_config.clip_g),
            t5xxl: clone_opt_string(&model_config.t5xxl),
            diffusion_model: clone_opt_string(&model_config.diffusion_model),
            vae: clone_opt_string(&model_config.vae),
            prompt: String::new(),
            negative_prompt: clone_opt_string(&model_config.negative_prompt),
            width: match model_config.width {
                Some(w) => w,
                None => 512,
            },
            height: match model_config.height {
                Some(h) => h,
                None => 512,
            },
            steps: match model_config.steps {
                Some(s) => s,
                None => 20,
            },
            cfg_scale: match &model_config.cfg_scale {
                Some(s) => s.clone(),
                None => String::from_str("7"),
            },
            guidance: clone_opt_string(&model_config.guidance),
            seed: match model_config.seed {
                Some(s) => s,
                None => -1,
            },
            sampling_method: match &model_config.sampling_method {
                Some(s) => s.clone(),
                None => String::from_str("euler_a"),
            },
            scheduler: match &model_config.scheduler {
                Some(s) => s.clone(),
                None => String::from_str("discrete"),
            },
            batch_count: match model_config.batch_count {
                Some(b) => b,
                None => 1,
            },
            output: String::from_str("output.png"),
        }
    }

    /// Lays the invocation out as the executable's argument list: weight
    /// path flags, then generation parameters, then the output path, in
    /// the exact order and text `arg_pairs` describes.
    pub fn to_args(&self) -> (r: Vec<String>)
        ensures
            views_of(r@) == flatten_pairs(arg_pairs(*self)),
    {
        let mut v: Vec<String> = Vec::new();
        proof {
            assert(views_of(v@) =~= Seq::<Seq<char>>::empty());
            assert(Seq::<Seq<char>>::empty() + flatten_pairs(model_path_pairs(*self)) =~= flatten_pairs(
                model_path_pairs(*self),
            ));
        }
        emit_model_paths(self, &mut v);
        emit_params(self, &mut v);
        proof {
            lemma_flatten_concat(model_path_pairs(*self), param_pairs(*self));
        }
        v
    }

    /// Accepts the invocation only when the generation executable is
    /// present at its configured path; the caller says whether it is.
    pub fn validate(&self, sd_cli_present: bool) -> (r: Result<(), Error>)
        ensures
            sd_cli_present ==> r is Ok,
            !sd_cli_present ==> (r matches Err(e) && (e matches Error::SdCliNotFound(p) && p@
                == self.sd_cli_path@)),
    {
        if !sd_cli_present {
            return Err(Error::SdCliNotFound(self.sd_cli_path.clone()));
        }
        Ok(())
    }

    /// Maps the exit of the executable onto the outcome of the run: exit
    /// code zero yields the agreed output path; a non-zero exit code
    /// yields the failure with that code and the captured diagnostics; an
    /// exit without a code (the process was killed) yields its own
    /// failure.
    pub fn run_outcome(&self, success: bool, exit_code: Option<i32>, stderr: String) -> (r: Result<
        String,
        Error,
    >)
        ensures
            success ==> (r matches Ok(p) && p@ == self.output@),
            !success && exit_code is None ==> (r matches Err(e) && e matches Error::SdCliKilled),
            !success ==> (match exit_code {
                Some(c) => r matches Err(e) && (e matches Error::SdCliFailed {
                    exit_code: ec,
                    stderr: st,
                } && ec == c && st@ == stderr@),
                None => true,
            }),
    {
        if success {
            Ok(self.output.clone())
        } else {
            match exit_code {
                None => Err(Error::SdCliKilled),
                Some(c) => Err(Error::SdCliFailed { exit_code: c, stderr }),
            }
        }
    }
}

proof fn lemma_has_flag_small(s: Seq<(Seq<char>, Seq<char>)>, f: Seq<char>)
    requires
        s.len() <= 4,
    ensures
        has_flag(s, f) <==> {
            ||| (s.len() > 0 && s[0].0 == f)
            ||| (s.len() > 1 && s[1].0 == f)
            ||| (s.len() > 2 && s[2].0 == f)
            ||| (s.len() > 3 && s[3].0 == f)
        },
    decreases s.len(),
{
    if s.len() > 0 {
        lemma_has_flag_small(s.drop_first(), f);
        assert(s.drop_first().len() == s.len() - 1);
        if s.len() > 1 {
            assert(s.drop_first()[0] == s[1]);
        }
        if s.len() > 2 {
            assert(s.drop_first()[1] == s[2]);
        }
        if s.len() > 3 {
            assert(s.drop_first()[2] == s[3]);
        }
    }
}

} // verus!
