//! Rules for voice-clone requests: what an upload must carry, which
//! provider a clone is made with, what that provider asks of the sample's
//! transcript, which names a clone may be given, and which clones may be
//! submitted again.
use vstd::prelude::*;
use crate::manager::records::VoiceCloneTaskRow;
use crate::manager::requests::byte_len;
use crate::text::{chars_of, eq_str, lowercase, owned, to_lowercase, trim, trim_str};

verus! {

broadcast use vstd::string::group_string_axioms;

/// Why an upload is refused before any provider is consulted: no TTS
/// configuration named, or no audio sample sent.
pub open spec fn upload_verdict(tts_config_id: Seq<char>, has_audio: bool) -> Result<(), Seq<char>> {
    if tts_config_id.len() == 0 {
        Err("tts_config_id 不能为空"@)
    } else if !has_audio {
        Err("请上传音频文件(audio_file)"@)
    } else {
        Ok(())
    }
}

/// Checks that an upload names a TTS configuration and carries a sample.
pub fn check_clone_upload(tts_config_id: &str, has_audio: bool) -> (r: Result<(), String>)
    ensures
        match r {
            Ok(()) => upload_verdict(tts_config_id@, has_audio) == Ok::<(), Seq<char>>(()),
            Err(m) => upload_verdict(tts_config_id@, has_audio) == Err::<(), Seq<char>>(m@),
        },
{
    if tts_config_id.is_empty() {
        return Err(owned("tts_config_id 不能为空"));
    }
    if !has_audio {
        return Err(owned("请上传音频文件(audio_file)"));
    }
    Ok(())
}

/// The provider a clone is made with: the requested one when it is not
/// blank, else the TTS configuration's own, trimmed and lower-cased.
pub open spec fn clone_provider_of(requested: Seq<char>, configured: Seq<char>) -> Seq<char> {
    if trim(requested).len() > 0 {
        lowercase(trim(requested))
    } else {
        lowercase(trim(configured))
    }
}

/// Picks the provider a clone is made with.
pub fn clone_provider(requested: &str, configured: &str) -> (r: String)
    ensures
        r@ == clone_provider_of(requested@, configured@),
{
    let req = trim_str(requested);
    if !req.as_str().is_empty() {
        to_lowercase(req.as_str())
    } else {
        let conf = trim_str(configured);
        to_lowercase(conf.as_str())
    }
}

/// Why a provider refuses a sample: it does not clone at all, it needs a
/// transcript and none was given, or (Minimax) the transcript is shorter
/// than 10 bytes.  `enabled` and `requires_transcript` are what the
/// provider registry reports for the provider.
pub open spec fn provider_verdict(
    provider: Seq<char>,
    transcript: Seq<char>,
    enabled: bool,
    requires_transcript: bool,
) -> Result<(), Seq<char>> {
    if !enabled {
        Err("当前仅支持 豆包/Minimax/CosyVoice/千问/IndexTTS 提供商的声音复刻"@)
    } else if requires_transcript && trim(transcript).len() == 0 {
        Err("该提供商复刻要求必须填写音频对应文字"@)
    } else if provider == "minimax"@ && byte_len(trim(transcript)) < 10 {
        Err("Minimax 复刻需要提供至少 10 个字符的 transcript"@)
    } else {
        Ok(())
    }
}

/// Checks a sample against what its provider asks of it.  (A string's
/// byte length always fits a `usize`.)
pub fn check_clone_provider(
    provider: &str,
    transcript: &str,
    enabled: bool,
    requires_transcript: bool,
) -> (r: Result<(), String>)
    requires
        byte_len(trim(transcript@)) <= usize::MAX,
    ensures
        match r {
            Ok(()) => provider_verdict(provider@, transcript@, enabled, requires_transcript)
                == Ok::<(), Seq<char>>(()),
            Err(m) => provider_verdict(provider@, transcript@, enabled, requires_transcript)
                == Err::<(), Seq<char>>(m@),
        },
{
    if !enabled {
        return Err(owned("当前仅支持 豆包/Minimax/CosyVoice/千问/IndexTTS 提供商的声音复刻"));
    }
    let t = trim_str(transcript);
    if requires_transcript && t.as_str().is_empty() {
        return Err(owned("该提供商复刻要求必须填写音频对应文字"));
    }
    proof {
        reveal_strlit("minimax");
    }
    if eq_str(provider, "minimax") && t.as_str().len() < 10 {
        return Err(owned("Minimax 复刻需要提供至少 10 个字符的 transcript"));
    }
    Ok(())
}

/// Why a new name for a clone is refused: blank once trimmed, or longer
/// than 100 characters once trimmed.  No name leaves the name unchanged.
pub open spec fn name_verdict(name: Option<Seq<char>>) -> Result<(), Seq<char>> {
    match name {
        None => Ok(()),
        Some(n) => if trim(n).len() == 0 {
            Err("名称不能为空"@)
        } else if trim(n).len() > 100 {
            Err("名称长度不能超过100个字符"@)
        } else {
            Ok(())
        },
    }
}

/// Checks the new name of a clone, if one is given.
pub fn check_clone_name(name: Option<&str>) -> (r: Result<(), String>)
    ensures
        match r {
            Ok(()) => name_verdict(match name { Some(n) => Some(n@), None => None }) == Ok::<(), Seq<char>>(()),
            Err(m) => name_verdict(match name { Some(n) => Some(n@), None => None }) == Err::<(), Seq<char>>(m@),
        },
{
    match name {
        None => Ok(()),
        Some(n) => {
            let t = trim_str(n);
            let cs = chars_of(t.as_str());
            if cs.len() == 0 {
                Err(owned("名称不能为空"))
            } else if cs.len() > 100 {
                Err(owned("名称长度不能超过100个字符"))
            } else {
                Ok(())
            }
        },
    }
}

/// Checks that a clone may be submitted again: only a failed one may.
pub fn check_clone_retry(status: &str) -> (r: Result<(), String>)
    ensures
        match r {
            Ok(()) => status@ == "failed"@,
            Err(m) => status@ != "failed"@ && m@ == "仅失败状态的复刻任务允许重新提交"@,
        },
{
    if !eq_str(status, "failed") {
        return Err(owned("仅失败状态的复刻任务允许重新提交"));
    }
    Ok(())
}

/// A clone task may be picked up by a worker: its state, trimmed and
/// lower-cased, is `queued` or `processing`.
pub open spec fn claimable(status: Seq<char>) -> bool {
    lowercase(trim(status)) == "queued"@ || lowercase(trim(status)) == "processing"@
}

/// Whether a clone task in state `status` may be picked up by a worker.
pub fn is_claimable_status(status: &str) -> (r: bool)
    ensures
        r == claimable(status@),
{
    let t = trim_str(status);
    let s = to_lowercase(t.as_str());
    eq_str(s.as_str(), "queued") || eq_str(s.as_str(), "processing")
}

/// A task is claimed when its state passes `claimable` and is stored as
/// exactly `queued` or `processing` (the guard of the update that claims
/// it).
pub open spec fn claim_taken(status: Seq<char>) -> bool {
    claimable(status) && (status == "queued"@ || status == "processing"@)
}

/// What a worker's claim does to a task row read at the time `now`: when
/// it can be claimed, the row becomes `processing` with one more attempt,
/// no error, started at `now`, not finished and updated at `now` (and the
/// clone `(voice_clone_id, user_id)` it belongs to becomes `processing`
/// too); otherwise (no row, or a task in another state) nothing is
/// claimed and no row changes.
pub fn claim_task(task: Option<&VoiceCloneTaskRow>, now: &str) -> (r: Option<VoiceCloneTaskRow>)
    requires
        task matches Some(t) ==> t.attempts < i64::MAX,
    ensures
        match task {
            None => r is None,
            Some(t) => if claim_taken(t.status@) {
                r matches Some(c) && {
                    &&& c.id == t.id
                    &&& c.task_id == t.task_id
                    &&& c.user_id == t.user_id
                    &&& c.voice_clone_id == t.voice_clone_id
                    &&& c.provider == t.provider
                    &&& c.status@ == "processing"@
                    &&& c.attempts == t.attempts + 1
                    &&& c.last_error@.len() == 0
                    &&& c.started_at matches Some(s) && s@ == now@
                    &&& c.finished_at is None
                    &&& c.meta_json == t.meta_json
                    &&& c.created_at == t.created_at
                    &&& c.updated_at@ == now@
                }
            } else {
                r is None
            },
        },
{
    let t = match task {
        Some(t) => t,
        None => return None,
    };
    if !is_claimable_status(t.status.as_str()) {
        return None;
    }
    if !eq_str(t.status.as_str(), "queued") && !eq_str(t.status.as_str(), "processing") {
        return None;
    }
    proof {
        reveal_strlit("processing");
    }
    Some(VoiceCloneTaskRow {
        id: t.id,
        task_id: t.task_id.clone(),
        user_id: t.user_id,
        voice_clone_id: t.voice_clone_id,
        provider: t.provider.clone(),
        status: owned("processing"),
        attempts: t.attempts + 1,
        last_error: String::new(),
        started_at: Some(owned(now)),
        finished_at: None,
        meta_json: t.meta_json.clone(),
        created_at: t.created_at.clone(),
        updated_at: owned(now),
    })
}

/// Why a reference sample cannot be added to a clone, in the order the
/// checks are made: the clone is not active (`active` is the voice-clone
/// API's status rule applied to its status), it has no provider voice id
/// (blank once trimmed), or no audio came; else the trimmed voice id.
pub open spec fn append_verdict(active: bool, voice_id: Option<Seq<char>>, audio_len: nat) -> Result<Seq<char>, Seq<char>> {
    if !active {
        Err("仅已成功的复刻音色允许追加参考音频"@)
    } else {
        match voice_id {
            Some(v) if trim(v).len() > 0 => if audio_len == 0 {
                Err("请上传音频文件(audio_file)"@)
            } else {
                Ok(trim(v))
            },
            _ => Err("复刻音色ID为空"@),
        }
    }
}

/// Checks a request to add a reference sample to a clone and gives the
/// provider voice id the sample is added to.
pub fn check_append_audio(active: bool, voice_id: Option<&str>, audio_len: usize) -> (r: Result<String, String>)
    ensures
        match (r, append_verdict(active, match voice_id { Some(v) => Some(v@), None => None }, audio_len as nat)) {
            (Ok(t), Ok(want)) => t@ == want,
            (Err(m), Err(want)) => m@ == want,
            _ => false,
        },
{
    if !active {
        return Err(owned("仅已成功的复刻音色允许追加参考音频"));
    }
    let v = match voice_id {
        Some(v) => trim_str(v),
        None => return Err(owned("复刻音色ID为空")),
    };
    if v.as_str().is_empty() {
        return Err(owned("复刻音色ID为空"));
    }
    if audio_len == 0 {
        return Err(owned("请上传音频文件(audio_file)"));
    }
    Ok(v)
}

/// The configuration a reference sample is added with: the TTS
/// configuration's JSON text when it is JSON, else `{}`.
pub open spec fn indextts_config(json_data: Seq<char>) -> Seq<char> {
    if crate::codec::json_parse_error(json_data) is None { json_data } else { "{}"@ }
}

/// Picks the configuration a reference sample is added with.
pub fn indextts_config_text(json_data: &str) -> (r: String)
    ensures
        r@ == indextts_config(json_data@),
{
    match crate::codec::json_error_text(json_data) {
        None => owned(json_data),
        Some(_) => owned("{}"),
    }
}

} // verus!
