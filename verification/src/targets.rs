//! The dispatcher: which encoder a target's id selects, what one target
//! renders, and what a whole configuration renders.

use vstd::prelude::*;
use crate::config::{Config, ConfigView, Target, TargetView};
use crate::cursor::{cursor_files, gen_cursor};
use crate::ghostty::{gen_ghostty, ghostty_files};
use crate::neovim::{gen_neovim, neovim_files};
use crate::output::{files_view, GenerateError, OutputFile, OutputFileView};
use crate::text::same_text;
use crate::website::{gen_website, website_files};
use crate::zed::{gen_zed, zed_files};

verus! {

/// The applications that a theme can be rendered for.
#[derive(Clone, Copy, Debug, PartialEq, Eq, Structural)]
pub enum TargetKind {
    Ghostty,
    Zed,
    Cursor,
    Neovim,
    Website,
}

/// The files of one target, with the directory they belong in.
#[derive(Debug)]
pub struct TargetOutput {
    pub dir: String,
    pub files: Vec<OutputFile>,
}

/// The view of [`TargetOutput`].
pub struct TargetOutputView {
    pub dir: Seq<char>,
    pub files: Seq<OutputFileView>,
}

impl View for TargetOutput {
    type V = TargetOutputView;

    open spec fn view(&self) -> TargetOutputView {
        TargetOutputView { dir: self.dir@, files: files_view(self.files@) }
    }
}

/// The views of a sequence of outputs, in order.
pub open spec fn outputs_view(outputs: Seq<TargetOutput>) -> Seq<TargetOutputView> {
    Seq::new(outputs.len(), |i: int| outputs[i]@)
}

/// The encoder that an id selects: the id must be one of the five names,
/// letter for letter.
pub open spec fn target_kind_spec(id: Seq<char>) -> Option<TargetKind> {
    if id == "ghostty"@ {
        Some(TargetKind::Ghostty)
    } else if id == "zed"@ {
        Some(TargetKind::Zed)
    } else if id == "cursor"@ {
        Some(TargetKind::Cursor)
    } else if id == "neovim"@ {
        Some(TargetKind::Neovim)
    } else if id == "website"@ {
        Some(TargetKind::Website)
    } else {
        None
    }
}

/// The files that the encoder `kind` renders for a target.
pub open spec fn expected_files(cfg: ConfigView, target: TargetView, kind: TargetKind) -> Seq<
    OutputFileView,
> {
    match kind {
        TargetKind::Ghostty => ghostty_files(cfg, target),
        TargetKind::Zed => zed_files(cfg, target),
        TargetKind::Cursor => cursor_files(cfg, target),
        TargetKind::Neovim => neovim_files(cfg, target),
        TargetKind::Website => website_files(cfg, target),
    }
}

/// Whether each enabled target among the first `n` has a known id.
pub open spec fn all_known_before(cfg: ConfigView, n: int) -> bool {
    forall|j: int|
        0 <= j < n && j < cfg.targets.len() && (#[trigger] cfg.targets[j]).enabled
            ==> target_kind_spec(cfg.targets[j].id) is Some
}

/// What the first `n` targets render: one output for each enabled target
/// with a known id, in their order. A disabled target adds nothing.
pub open spec fn outputs_before(cfg: ConfigView, n: int) -> Seq<TargetOutputView>
    decreases n,
{
    if n <= 0 {
        Seq::empty()
    } else {
        let target = cfg.targets[n - 1];
        let earlier = outputs_before(cfg, n - 1);
        match target_kind_spec(target.id) {
            Some(kind) => if target.enabled {
                earlier.push(
                    TargetOutputView {
                        dir: target.path,
                        files: expected_files(cfg, target, kind),
                    },
                )
            } else {
                earlier
            },
            None => earlier,
        }
    }
}

/// The number of enabled targets among the first `n`.
pub open spec fn enabled_before(cfg: ConfigView, n: int) -> nat
    decreases n,
{
    if n <= 0 {
        0
    } else if cfg.targets[n - 1].enabled {
        enabled_before(cfg, n - 1) + 1
    } else {
        enabled_before(cfg, n - 1)
    }
}

/// Selects the encoder for an id.
pub fn target_kind(id: &str) -> (res: Option<TargetKind>)
    ensures
        res == target_kind_spec(id@),
{
    if same_text(id, "ghostty") {
        Some(TargetKind::Ghostty)
    } else if same_text(id, "zed") {
        Some(TargetKind::Zed)
    } else if same_text(id, "cursor") {
        Some(TargetKind::Cursor)
    } else if same_text(id, "neovim") {
        Some(TargetKind::Neovim)
    } else if same_text(id, "website") {
        Some(TargetKind::Website)
    } else {
        None
    }
}

/// Renders one target, whether it is enabled or not. It fails exactly where
/// the id selects no encoder: the error holds the id, and nothing is
/// rendered. With a known id the result is the encoder's files.
pub fn generate_target(
    cfg: &Config,
    target: &Target,
) -> (res: Result<Vec<OutputFile>, GenerateError>)
    ensures
        match target_kind_spec(target@.id) {
            None => res matches Err(GenerateError::UnknownTarget(id)) && id@ == target@.id,
            Some(kind) => res is Ok && files_view(res->Ok_0@) == expected_files(
                cfg@,
                target@,
                kind,
            ),
        },
{
    match target_kind(target.id.as_str()) {
        Some(TargetKind::Ghostty) => Ok(gen_ghostty(cfg, target)),
        Some(TargetKind::Zed) => gen_zed(cfg, target),
        Some(TargetKind::Cursor) => gen_cursor(cfg, target),
        Some(TargetKind::Neovim) => Ok(gen_neovim(cfg, target)),
        Some(TargetKind::Website) => gen_website(cfg, target),
        None => Err(GenerateError::UnknownTarget(target.id.clone())),
    }
}

/// The number of enabled targets.
pub fn enabled_count(cfg: &Config) -> (res: usize)
    ensures
        res == enabled_before(cfg@, cfg@.targets.len() as int),
{
    let mut count: usize = 0;
    let mut i: usize = 0;
    while i < cfg.targets.len()
        invariant
            i <= cfg.targets@.len(),
            count <= i,
            count == enabled_before(cfg@, i as int),
        decreases cfg.targets@.len() - i,
    {
        if cfg.targets[i].enabled {
            count = count + 1;
        }
        i = i + 1;
    }
    count
}

/// Renders every enabled target, in the order of the configuration, and
/// stops at the first that fails. Disabled targets are passed over.
///
/// It succeeds exactly where each enabled target has a known id, and the
/// outputs are then theirs. Else the error holds the id of the first enabled
/// target that has an unknown one.
pub fn generate(cfg: &Config) -> (res: Result<Vec<TargetOutput>, GenerateError>)
    ensures
        res is Ok <==> all_known_before(cfg@, cfg@.targets.len() as int),
        match res {
            Ok(outputs) => outputs_view(outputs@) == outputs_before(
                cfg@,
                cfg@.targets.len() as int,
            ),
            Err(GenerateError::UnknownTarget(id)) => exists|j: int|
                0 <= j < cfg@.targets.len() && all_known_before(cfg@, j) && (
                #[trigger] cfg@.targets[j]).enabled && target_kind_spec(cfg@.targets[j].id) is None
                    && id@ == cfg@.targets[j].id,
            Err(GenerateError::Json(_)) => false,
        },
{
    let mut outputs: Vec<TargetOutput> = Vec::new();
    let mut i: usize = 0;
    assert(outputs_view(outputs@) =~= outputs_before(cfg@, 0));
    while i < cfg.targets.len()
        invariant
            i <= cfg.targets@.len(),
            all_known_before(cfg@, i as int),
            outputs_view(outputs@) == outputs_before(cfg@, i as int),
        decreases cfg.targets@.len() - i,
    {
        let target = &cfg.targets[i];
        assert(cfg@.targets[i as int] == target@);
        if target.enabled {
            match generate_target(cfg, target) {
                Ok(files) => {
                    let ghost before = outputs_view(outputs@);
                    let output = TargetOutput { dir: target.path.clone(), files: files };
                    let ghost added = output@;
                    outputs.push(output);
                    assert(outputs_view(outputs@) =~= before.push(added));
                },
                Err(e) => {
                    return Err(e);
                },
            }
        }
        i = i + 1;
    }
    Ok(outputs)
}

/// A disabled target renders nothing: the outputs of the targets up to and
/// with it are those of the targets before it.
pub proof fn lemma_disabled_target_renders_nothing(cfg: ConfigView, index: int)
    requires
        0 <= index < cfg.targets.len(),
        !cfg.targets[index].enabled,
    ensures
        outputs_before(cfg, index + 1) == outputs_before(cfg, index),
        enabled_before(cfg, index + 1) == enabled_before(cfg, index),
{
}

/// Where every enabled target has a known id, there is one output for each
/// enabled target.
pub proof fn lemma_one_output_per_enabled_target(cfg: ConfigView, n: int)
    requires
        0 <= n <= cfg.targets.len(),
        all_known_before(cfg, n),
    ensures
        outputs_before(cfg, n).len() == enabled_before(cfg, n),
    decreases n,
{
    if n > 0 {
        lemma_one_output_per_enabled_target(cfg, n - 1);
        assert(cfg.targets[n - 1].enabled ==> target_kind_spec(cfg.targets[n - 1].id) is Some);
    }
}

} // verus!
