//! Domain model for named transcode profile settings.

use vstd::prelude::*;

use crate::text::same_text;

verus! {

/// Encoder settings for a single transcode profile.
#[derive(Debug, Clone)]
pub struct TranscodeProfile {
    /// x264 preset, from `ultrafast` to `placebo`.
    pub preset: String,
    /// x264 tune: `zerolatency`, `fastdecode`, `animation`, `film` and others, or empty.
    pub tune: String,
    /// Constant quality, 0 to 51, lower is better. Used where `bitrate` is 0.
    pub crf: i32,
    /// Keyframe interval in frames.
    pub gop: u32,
    /// The most B-frames in a row; 0 for the lowest latency.
    pub bframes: usize,
    /// Target bitrate in bits per second; 0 for constant quality.
    pub bitrate: i64,
    /// Bitrate limit in bits per second; 0 for none.
    pub max_bitrate: i64,
    /// Output width; 0 for that of the source.
    pub width: u32,
    /// Output height; 0 for that of the source.
    pub height: u32,
}

/// The presets that x264 has.
pub open spec fn valid_preset(preset: Seq<char>) -> bool {
    preset == "ultrafast"@ || preset == "superfast"@ || preset == "veryfast"@ || preset
        == "faster"@ || preset == "fast"@ || preset == "medium"@ || preset == "slow"@ || preset
        == "slower"@ || preset == "veryslow"@ || preset == "placebo"@
}

/// The tunes that x264 has, and none.
pub open spec fn valid_tune(tune: Seq<char>) -> bool {
    tune == ""@ || tune == "film"@ || tune == "animation"@ || tune == "grain"@ || tune
        == "stillimage"@ || tune == "psnr"@ || tune == "ssim"@ || tune == "fastdecode"@ || tune
        == "zerolatency"@
}

fn is_valid_preset(preset: &str) -> (r: bool)
    ensures
        r == valid_preset(preset@),
{
    same_text(preset, "ultrafast") || same_text(preset, "superfast") || same_text(
        preset,
        "veryfast",
    ) || same_text(preset, "faster") || same_text(preset, "fast") || same_text(preset, "medium")
        || same_text(preset, "slow") || same_text(preset, "slower") || same_text(preset, "veryslow")
        || same_text(preset, "placebo")
}

fn is_valid_tune(tune: &str) -> (r: bool)
    ensures
        r == valid_tune(tune@),
{
    same_text(tune, "") || same_text(tune, "film") || same_text(tune, "animation") || same_text(
        tune,
        "grain",
    ) || same_text(tune, "stillimage") || same_text(tune, "psnr") || same_text(tune, "ssim")
        || same_text(tune, "fastdecode") || same_text(tune, "zerolatency")
}

fn default_preset() -> (r: String)
    ensures
        r@ == "ultrafast"@,
{
    "ultrafast".to_string()
}

fn default_tune() -> (r: String)
    ensures
        r@ == "zerolatency"@,
{
    "zerolatency".to_string()
}

fn default_crf() -> (r: i32)
    ensures
        r == 23,
{
    23
}

fn default_gop() -> (r: u32)
    ensures
        r == 60,
{
    60
}

fn default_bframes() -> (r: usize)
    ensures
        r == 0,
{
    0
}

impl Default for TranscodeProfile {
    fn default() -> (r: Self)
        ensures
            r.preset@ == "ultrafast"@,
            r.tune@ == "zerolatency"@,
            r.crf == 23,
            r.gop == 60,
            r.bframes == 0,
            r.bitrate == 0,
            r.max_bitrate == 0,
            r.width == 0,
            r.height == 0,
            r.refusal() is None,
    {
        TranscodeProfile {
            preset: default_preset(),
            tune: default_tune(),
            crf: default_crf(),
            gop: default_gop(),
            bframes: default_bframes(),
            bitrate: 0,
            max_bitrate: 0,
            width: 0,
            height: 0,
        }
    }
}

impl TranscodeProfile {
    /// Why the profile is refused: its preset, its tune or its quality, whichever is wrong first.
    pub open spec fn refusal(&self) -> Option<Seq<char>> {
        if !valid_preset(self.preset@) {
            Some(
                "preset must be one of: ultrafast, superfast, veryfast, faster, fast, medium, slow, slower, veryslow, placebo"@,
            )
        } else if !valid_tune(self.tune@) {
            Some(
                "tune must be one of: film, animation, grain, stillimage, psnr, ssim, fastdecode, zerolatency, or empty"@,
            )
        } else if !(0 <= self.crf <= 51) {
            Some("crf must be between 0 and 51"@)
        } else {
            None
        }
    }

    /// Refuses a preset or a tune that x264 does not have, and a quality out of range.
    pub fn validate(&self) -> (r: Result<(), &'static str>)
        ensures
            match r {
                Ok(_) => self.refusal() is None,
                Err(message) => self.refusal() == Some(message@),
            },
    {
        if !is_valid_preset(self.preset.as_str()) {
            return Err(
                "preset must be one of: ultrafast, superfast, veryfast, faster, fast, medium, slow, slower, veryslow, placebo",
            );
        }
        if !is_valid_tune(self.tune.as_str()) {
            return Err(
                "tune must be one of: film, animation, grain, stillimage, psnr, ssim, fastdecode, zerolatency, or empty",
            );
        }
        if !(0 <= self.crf && self.crf <= 51) {
            return Err("crf must be between 0 and 51");
        }
        Ok(())
    }
}

// ── Laws ─────────────────────────────────────────────────────────────────────

/// The presets of x264, from the fastest on.
pub open spec fn preset_names() -> Seq<Seq<char>> {
    seq![
        "ultrafast"@,
        "superfast"@,
        "veryfast"@,
        "faster"@,
        "fast"@,
        "medium"@,
        "slow"@,
        "slower"@,
        "veryslow"@,
        "placebo"@,
    ]
}

/// The tunes of x264, and none.
pub open spec fn tune_names() -> Seq<Seq<char>> {
    seq![
        "film"@,
        "animation"@,
        "grain"@,
        "stillimage"@,
        "psnr"@,
        "ssim"@,
        "fastdecode"@,
        "zerolatency"@,
        ""@,
    ]
}

/// A profile is accepted exactly when its preset and its tune are ones that x264 has, and its
/// quality is from 0 to 51; what it is refused for is the first of these that is wrong.
pub proof fn profile_is_accepted_iff_encoder_takes_it(p: TranscodeProfile)
    ensures
        p.refusal() is None <==> preset_names().contains(p.preset@) && tune_names().contains(
            p.tune@,
        ) && 0 <= p.crf <= 51,
        !preset_names().contains(p.preset@) ==> p.refusal() == Some(
            "preset must be one of: ultrafast, superfast, veryfast, faster, fast, medium, slow, slower, veryslow, placebo"@,
        ),
        preset_names().contains(p.preset@) && !tune_names().contains(p.tune@) ==> p.refusal()
            == Some(
            "tune must be one of: film, animation, grain, stillimage, psnr, ssim, fastdecode, zerolatency, or empty"@,
        ),
        preset_names().contains(p.preset@) && tune_names().contains(p.tune@) && !(0 <= p.crf <= 51)
            ==> p.refusal() == Some("crf must be between 0 and 51"@),
{
    lemma_preset(p.preset@);
    lemma_tune(p.tune@);
}

proof fn lemma_preset(s: Seq<char>)
    ensures
        preset_names().contains(s) <==> valid_preset(s),
{
    let v = preset_names();
    assert(v[0] == "ultrafast"@ && v[1] == "superfast"@ && v[2] == "veryfast"@ && v[3] == "faster"@
        && v[4] == "fast"@ && v[5] == "medium"@ && v[6] == "slow"@ && v[7] == "slower"@ && v[8]
        == "veryslow"@ && v[9] == "placebo"@);
}

proof fn lemma_tune(s: Seq<char>)
    ensures
        tune_names().contains(s) <==> valid_tune(s),
{
    let v = tune_names();
    assert(v[0] == "film"@ && v[1] == "animation"@ && v[2] == "grain"@ && v[3] == "stillimage"@
        && v[4] == "psnr"@ && v[5] == "ssim"@ && v[6] == "fastdecode"@ && v[7] == "zerolatency"@
        && v[8] == ""@);
}

} // verus!
