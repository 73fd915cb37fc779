//! Self-update status as the UI shows it, and the wording of update errors.

use vstd::prelude::*;
use vstd::string::*;
use crate::text::{contains_seq, contains_str, str_eq};

verus! {

/// Where the self-update stands.
#[derive(Debug)]
pub struct UpdateStatusPayload {
    /// `"idle"`, `"checking"`, `"available"`, `"upToDate"`, `"downloading"`,
    /// `"downloaded"`, `"installing"` or `"error"`.
    pub phase: String,
    pub current_version: String,
    pub version: Option<String>,
    pub message: String,
    pub notes: Option<String>,
    pub downloaded_bytes: Option<u64>,
    pub total_bytes: Option<u64>,
}

fn copy_text(s: &Option<String>) -> (r: Option<String>)
    ensures
        r == *s,
{
    match s {
        Some(t) => Some(t.clone()),
        None => None,
    }
}

impl UpdateStatusPayload {
    /// The status before any check: idle, for version `current_version`.
    pub fn idle(current_version: String) -> (s: Self)
        ensures
            s.phase@ == "idle"@,
            s.current_version == current_version,
            s.version.is_none(),
            s.message@ == Seq::<char>::empty(),
            s.notes.is_none(),
            s.downloaded_bytes.is_none(),
            s.total_bytes.is_none(),
    {
        UpdateStatusPayload {
            phase: String::from_str("idle"),
            current_version,
            version: None,
            message: String::new(),
            notes: None,
            downloaded_bytes: None,
            total_bytes: None,
        }
    }

    /// A field-for-field copy.
    pub fn copy(&self) -> (r: Self)
        ensures
            r == *self,
    {
        UpdateStatusPayload {
            phase: self.phase.clone(),
            current_version: self.current_version.clone(),
            version: copy_text(&self.version),
            message: self.message.clone(),
            notes: copy_text(&self.notes),
            downloaded_bytes: self.downloaded_bytes,
            total_bytes: self.total_bytes,
        }
    }
}

fn status(
    phase: &str,
    current_version: String,
    version: Option<String>,
    message: String,
    notes: Option<String>,
    downloaded_bytes: Option<u64>,
    total_bytes: Option<u64>,
) -> (s: UpdateStatusPayload)
    ensures
        s.phase@ == phase@,
        s.current_version == current_version,
        s.version == version,
        s.message == message,
        s.notes == notes,
        s.downloaded_bytes == downloaded_bytes,
        s.total_bytes == total_bytes,
{
    UpdateStatusPayload {
        phase: String::from_str(phase),
        current_version,
        version,
        message,
        notes,
        downloaded_bytes,
        total_bytes,
    }
}

fn text_joined(before: &str, after: &str) -> (s: String)
    ensures
        s@ == before@ + after@,
{
    let mut s = String::from_str(before);
    s.append(after);
    s
}

fn text_around(before: &str, middle: &str, after: &str) -> (s: String)
    ensures
        s@ == before@ + middle@ + after@,
{
    let mut s = String::from_str(before);
    s.append(middle);
    s.append(after);
    s
}

impl UpdateStatusPayload {
    /// A check for updates has begun.
    pub fn checking(current_version: String) -> (s: Self)
        ensures
            s.phase@ == "checking"@,
            s.current_version == current_version,
            s.version.is_none(),
            s.message@ == "正在检查更新..."@,
            s.notes.is_none(),
            s.downloaded_bytes.is_none(),
            s.total_bytes.is_none(),
    {
        status("checking", current_version, None, String::from_str("正在检查更新..."), None, None, None)
    }

    /// Version `version` is available, with release notes `notes`.
    pub fn available(current_version: String, version: String, notes: Option<String>) -> (s: Self)
        ensures
            s.phase@ == "available"@,
            s.current_version == current_version,
            s.version == Some(version),
            s.message@ == "发现新版本 v"@ + version@ + "，点击下载并安装"@,
            s.notes == notes,
            s.downloaded_bytes.is_none(),
            s.total_bytes.is_none(),
    {
        let message = text_around("发现新版本 v", version.as_str(), "，点击下载并安装");
        status("available", current_version, Some(version), message, notes, None, None)
    }

    /// No newer version exists.
    pub fn up_to_date(current_version: String) -> (s: Self)
        ensures
            s.phase@ == "upToDate"@,
            s.current_version == current_version,
            s.version.is_none(),
            s.message@ == "已是最新版本"@,
            s.notes.is_none(),
            s.downloaded_bytes.is_none(),
            s.total_bytes.is_none(),
    {
        status("upToDate", current_version, None, String::from_str("已是最新版本"), None, None, None)
    }

    /// A download is being prepared; the release notes shown so far stay.
    pub fn preparing_download(current_version: String, notes: Option<String>) -> (s: Self)
        ensures
            s.phase@ == "downloading"@,
            s.current_version == current_version,
            s.version.is_none(),
            s.message@ == "正在准备下载安装..."@,
            s.notes == notes,
            s.downloaded_bytes == Some(0u64),
            s.total_bytes.is_none(),
    {
        status(
            "downloading",
            current_version,
            None,
            String::from_str("正在准备下载安装..."),
            notes,
            Some(0),
            None,
        )
    }

    /// Version `version` is being downloaded: `downloaded` bytes so far of
    /// `total` (when known), described by `message`.
    pub fn downloading(
        current_version: String,
        version: String,
        message: String,
        notes: Option<String>,
        downloaded: u64,
        total: Option<u64>,
    ) -> (s: Self)
        ensures
            s.phase@ == "downloading"@,
            s.current_version == current_version,
            s.version == Some(version),
            s.message == message,
            s.notes == notes,
            s.downloaded_bytes == Some(downloaded),
            s.total_bytes == total,
    {
        status("downloading", current_version, Some(version), message, notes, Some(downloaded), total)
    }

    /// The progress message of a download whose size is unknown.
    pub fn download_message(version: &str) -> (m: String)
        ensures
            m@ == "正在下载 v"@ + version@,
    {
        text_joined("正在下载 v", version)
    }

    /// Version `version` has been downloaded in full, `bytes` bytes.
    pub fn downloaded(current_version: String, version: String, notes: Option<String>, bytes: u64) -> (s:
        Self)
        ensures
            s.phase@ == "downloaded"@,
            s.current_version == current_version,
            s.version == Some(version),
            s.message@ == "v"@ + version@ + " 下载完成，点击安装并重启"@,
            s.notes == notes,
            s.downloaded_bytes == Some(bytes),
            s.total_bytes == Some(bytes),
    {
        let message = text_around("v", version.as_str(), " 下载完成，点击安装并重启");
        status("downloaded", current_version, Some(version), message, notes, Some(bytes), Some(bytes))
    }

    /// The update failed with the (already worded) error `err`.
    pub fn failed(current_version: String, err: &str) -> (s: Self)
        ensures
            s.phase@ == "error"@,
            s.current_version == current_version,
            s.version.is_none(),
            s.message@ == "更新失败："@ + err@,
            s.notes.is_none(),
            s.downloaded_bytes.is_none(),
            s.total_bytes.is_none(),
    {
        let message = text_joined("更新失败：", err);
        status("error", current_version, None, message, None, None, None)
    }

    /// The installer of version `version` is being started.
    pub fn installing(current_version: String, version: String, notes: Option<String>) -> (s: Self)
        ensures
            s.phase@ == "installing"@,
            s.current_version == current_version,
            s.version == Some(version),
            s.message@ == "正在启动安装器，应用将自动关闭并在安装完成后回到 v"@ + version@,
            s.notes == notes,
            s.downloaded_bytes.is_none(),
            s.total_bytes.is_none(),
    {
        let message = text_joined("正在启动安装器，应用将自动关闭并在安装完成后回到 v", version.as_str());
        status("installing", current_version, Some(version), message, notes, None, None)
    }

    /// The installer of version `version` could not start; `err` is the
    /// installer's error text.
    pub fn install_failed(
        current_version: String,
        version: String,
        notes: Option<String>,
        err: &str,
    ) -> (s: Self)
        ensures
            s.phase@ == "error"@,
            s.current_version == current_version,
            s.version == Some(version),
            s.message@ == "启动安装器失败："@ + update_error_text(err@),
            s.notes == notes,
            s.downloaded_bytes.is_none(),
            s.total_bytes.is_none(),
    {
        let worded = format_update_error(err);
        let message = text_joined("启动安装器失败：", worded.as_str());
        status("error", current_version, Some(version), message, notes, None, None)
    }
}

/// The status after a check for updates: version `found.0` (with its
/// release notes `found.1`) available, or up to date when nothing was found.
pub fn check_outcome_status(current_version: String, found: Option<(String, Option<String>)>) -> (s:
    UpdateStatusPayload)
    ensures
        match found {
            Some((version, notes)) => {
                &&& s.phase@ == "available"@
                &&& s.version == Some(version)
                &&& s.message@ == "发现新版本 v"@ + version@ + "，点击下载并安装"@
                &&& s.notes == notes
            },
            None => {
                &&& s.phase@ == "upToDate"@
                &&& s.version.is_none()
                &&& s.message@ == "已是最新版本"@
                &&& s.notes.is_none()
            },
        },
        s.current_version == current_version,
        s.downloaded_bytes.is_none(),
        s.total_bytes.is_none(),
{
    match found {
        Some((version, notes)) => UpdateStatusPayload::available(current_version, version, notes),
        None => UpdateStatusPayload::up_to_date(current_version),
    }
}

/// Whether an update task in phase `phase` is still running, so that another
/// may not start.
pub open spec fn is_busy_phase(phase: Seq<char>) -> bool {
    phase == "checking"@ || phase == "downloading"@ || phase == "installing"@
}

/// The message shown for an update error whose text is `msg`.
pub open spec fn update_error_text(msg: Seq<char>) -> Seq<char> {
    if contains_seq(msg, "signature"@) {
        "更新签名无效，请先检查发布签名配置"@
    } else if contains_seq(msg, "ReleaseNotFound"@) {
        "未找到可用更新"@
    } else {
        msg
    }
}

/// Whether an update task in `phase` is running.
pub fn update_in_progress(phase: &str) -> (b: bool)
    ensures
        b == is_busy_phase(phase@),
{
    str_eq(phase, "checking") || str_eq(phase, "downloading") || str_eq(phase, "installing")
}

/// The message for an update error: a signature problem and a missing
/// release get a fixed explanation, anything else is shown as it is.
pub fn format_update_error(msg: &str) -> (s: String)
    ensures
        s@ == update_error_text(msg@),
{
    if contains_str(msg, "signature") {
        String::from_str("更新签名无效，请先检查发布签名配置")
    } else if contains_str(msg, "ReleaseNotFound") {
        String::from_str("未找到可用更新")
    } else {
        String::from_str(msg)
    }
}

} // verus!
