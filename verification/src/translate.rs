//! The front-end translation table.
//!
//! The engine's behaviour does not depend on the display language; these
//! strings only label front-end widgets and messages. A lookup falls back to
//! English, and an unknown key is returned as its own text.

use vstd::prelude::*;

use crate::language::Language;
use crate::strutil;

verus! {

pub open spec fn spec_en_0(key: Seq<char>) -> Option<Seq<char>> {
    if key == "app-title"@ {
        Some("RSendMail"@)
    } else if key == "smtp-server"@ {
        Some("SMTP Server"@)
    } else if key == "server-address"@ {
        Some("Server Address"@)
    } else if key == "port"@ {
        Some("Port"@)
    } else if key == "use-tls"@ {
        Some("Use TLS"@)
    } else if key == "accept-invalid-certs"@ {
        Some("Accept Invalid Certificates"@)
    } else if key == "auth-required"@ {
        Some("Authentication Required"@)
    } else if key == "username"@ {
        Some("Username"@)
    } else if key == "password"@ {
        Some("Password"@)
    } else if key == "sender"@ {
        Some("Sender"@)
    } else if key == "recipient"@ {
        Some("Recipient"@)
    } else if key == "recipient-hint"@ {
        Some("(comma separated for multiple)"@)
    } else if key == "send-mode"@ {
        Some("Send Mode"@)
    } else if key == "eml-batch"@ {
        Some("EML Batch"@)
    } else if key == "single-attachment"@ {
        Some("Single Attachment"@)
    } else if key == "dir-attachment"@ {
        Some("Directory Attachment"@)
    } else if key == "eml-directory"@ {
        Some("EML Directory"@)
    } else if key == "attachment-file"@ {
        Some("Attachment File"@)
    } else if key == "attachment-directory"@ {
        Some("Attachment Directory"@)
    } else if key == "extension"@ {
        Some("Extension"@)
    } else if key == "browse"@ {
        Some("Browse..."@)
    } else if key == "email-subject"@ {
        Some("Email Subject"@)
    } else if key == "email-body"@ {
        Some("Email Body"@)
    } else if key == "advanced-options"@ {
        Some("Advanced Options"@)
    } else if key == "performance"@ {
        Some("Performance"@)
    } else {
        None
    }
}

fn en_0(key: &str) -> (r: Option<String>)
    ensures
        match (&r, spec_en_0(key@)) {
            (Some(a), Some(b)) => a@ == b,
            (None, None) => true,
            _ => false,
        },
{
    if strutil::str_eq(key, "app-title") {
        Some("RSendMail".to_owned())
    } else if strutil::str_eq(key, "smtp-server") {
        Some("SMTP Server".to_owned())
    } else if strutil::str_eq(key, "server-address") {
        Some("Server Address".to_owned())
    } else if strutil::str_eq(key, "port") {
        Some("Port".to_owned())
    } else if strutil::str_eq(key, "use-tls") {
        Some("Use TLS".to_owned())
    } else if strutil::str_eq(key, "accept-invalid-certs") {
        Some("Accept Invalid Certificates".to_owned())
    } else if strutil::str_eq(key, "auth-required") {
        Some("Authentication Required".to_owned())
    } else if strutil::str_eq(key, "username") {
        Some("Username".to_owned())
    } else if strutil::str_eq(key, "password") {
        Some("Password".to_owned())
    } else if strutil::str_eq(key, "sender") {
        Some("Sender".to_owned())
    } else if strutil::str_eq(key, "recipient") {
        Some("Recipient".to_owned())
    } else if strutil::str_eq(key, "recipient-hint") {
        Some("(comma separated for multiple)".to_owned())
    } else if strutil::str_eq(key, "send-mode") {
        Some("Send Mode".to_owned())
    } else if strutil::str_eq(key, "eml-batch") {
        Some("EML Batch".to_owned())
    } else if strutil::str_eq(key, "single-attachment") {
        Some("Single Attachment".to_owned())
    } else if strutil::str_eq(key, "dir-attachment") {
        Some("Directory Attachment".to_owned())
    } else if strutil::str_eq(key, "eml-directory") {
        Some("EML Directory".to_owned())
    } else if strutil::str_eq(key, "attachment-file") {
        Some("Attachment File".to_owned())
    } else if strutil::str_eq(key, "attachment-directory") {
        Some("Attachment Directory".to_owned())
    } else if strutil::str_eq(key, "extension") {
        Some("Extension".to_owned())
    } else if strutil::str_eq(key, "browse") {
        Some("Browse...".to_owned())
    } else if strutil::str_eq(key, "email-subject") {
        Some("Email Subject".to_owned())
    } else if strutil::str_eq(key, "email-body") {
        Some("Email Body".to_owned())
    } else if strutil::str_eq(key, "advanced-options") {
        Some("Advanced Options".to_owned())
    } else if strutil::str_eq(key, "performance") {
        Some("Performance".to_owned())
    } else {
        None
    }
}

pub open spec fn spec_en_1(key: Seq<char>) -> Option<Seq<char>> {
    if key == "processes"@ {
        Some("Processes"@)
    } else if key == "batch-size"@ {
        Some("Batch Size"@)
    } else if key == "send-interval"@ {
        Some("Send Interval (ms)"@)
    } else if key == "timeout"@ {
        Some("Timeout (sec)"@)
    } else if key == "loop-settings"@ {
        Some("Loop Settings"@)
    } else if key == "infinite-loop"@ {
        Some("Infinite Loop"@)
    } else if key == "repeat-count"@ {
        Some("Repeat Count"@)
    } else if key == "loop-interval"@ {
        Some("Loop Interval (sec)"@)
    } else if key == "retry-interval"@ {
        Some("Retry Interval (sec)"@)
    } else if key == "email-processing"@ {
        Some("Email Processing"@)
    } else if key == "keep-headers"@ {
        Some("Keep Original Headers"@)
    } else if key == "modify-headers"@ {
        Some("Modify Headers"@)
    } else if key == "anonymize-emails"@ {
        Some("Anonymize Emails"@)
    } else if key == "domain"@ {
        Some("Domain"@)
    } else if key == "logging"@ {
        Some("Logging & Error Handling"@)
    } else if key == "log-level"@ {
        Some("Log Level"@)
    } else if key == "log-file"@ {
        Some("Log File"@)
    } else if key == "failed-emails-dir"@ {
        Some("Failed Emails Directory"@)
    } else if key == "optional"@ {
        Some("(optional)"@)
    } else if key == "statistics"@ {
        Some("Statistics"@)
    } else if key == "total"@ {
        Some("Total"@)
    } else if key == "success"@ {
        Some("Success"@)
    } else if key == "failed"@ {
        Some("Failed"@)
    } else if key == "current-round"@ {
        Some("Current Round"@)
    } else if key == "elapsed-time"@ {
        Some("Elapsed Time"@)
    } else {
        None
    }
}

fn en_1(key: &str) -> (r: Option<String>)
    ensures
        match (&r, spec_en_1(key@)) {
            (Some(a), Some(b)) => a@ == b,
            (None, None) => true,
            _ => false,
        },
{
    if strutil::str_eq(key, "processes") {
        Some("Processes".to_owned())
    } else if strutil::str_eq(key, "batch-size") {
        Some("Batch Size".to_owned())
    } else if strutil::str_eq(key, "send-interval") {
        Some("Send Interval (ms)".to_owned())
    } else if strutil::str_eq(key, "timeout") {
        Some("Timeout (sec)".to_owned())
    } else if strutil::str_eq(key, "loop-settings") {
        Some("Loop Settings".to_owned())
    } else if strutil::str_eq(key, "infinite-loop") {
        Some("Infinite Loop".to_owned())
    } else if strutil::str_eq(key, "repeat-count") {
        Some("Repeat Count".to_owned())
    } else if strutil::str_eq(key, "loop-interval") {
        Some("Loop Interval (sec)".to_owned())
    } else if strutil::str_eq(key, "retry-interval") {
        Some("Retry Interval (sec)".to_owned())
    } else if strutil::str_eq(key, "email-processing") {
        Some("Email Processing".to_owned())
    } else if strutil::str_eq(key, "keep-headers") {
        Some("Keep Original Headers".to_owned())
    } else if strutil::str_eq(key, "modify-headers") {
        Some("Modify Headers".to_owned())
    } else if strutil::str_eq(key, "anonymize-emails") {
        Some("Anonymize Emails".to_owned())
    } else if strutil::str_eq(key, "domain") {
        Some("Domain".to_owned())
    } else if strutil::str_eq(key, "logging") {
        Some("Logging & Error Handling".to_owned())
    } else if strutil::str_eq(key, "log-level") {
        Some("Log Level".to_owned())
    } else if strutil::str_eq(key, "log-file") {
        Some("Log File".to_owned())
    } else if strutil::str_eq(key, "failed-emails-dir") {
        Some("Failed Emails Directory".to_owned())
    } else if strutil::str_eq(key, "optional") {
        Some("(optional)".to_owned())
    } else if strutil::str_eq(key, "statistics") {
        Some("Statistics".to_owned())
    } else if strutil::str_eq(key, "total") {
        Some("Total".to_owned())
    } else if strutil::str_eq(key, "success") {
        Some("Success".to_owned())
    } else if strutil::str_eq(key, "failed") {
        Some("Failed".to_owned())
    } else if strutil::str_eq(key, "current-round") {
        Some("Current Round".to_owned())
    } else if strutil::str_eq(key, "elapsed-time") {
        Some("Elapsed Time".to_owned())
    } else {
        None
    }
}

pub open spec fn spec_en_2(key: Seq<char>) -> Option<Seq<char>> {
    if key == "send-log"@ {
        Some("Send Log"@)
    } else if key == "clear"@ {
        Some("Clear"@)
    } else if key == "export-log"@ {
        Some("Export Log"@)
    } else if key == "save-config"@ {
        Some("Save Config"@)
    } else if key == "load-config"@ {
        Some("Load Config"@)
    } else if key == "test-connection"@ {
        Some("Test Connection"@)
    } else if key == "start-send"@ {
        Some("Start Send"@)
    } else if key == "stop-send"@ {
        Some("Stop Send"@)
    } else if key == "language"@ {
        Some("Language"@)
    } else if key == "status-ready"@ {
        Some("Ready"@)
    } else if key == "status-preparing"@ {
        Some("Preparing..."@)
    } else if key == "status-sending"@ {
        Some("Sending..."@)
    } else if key == "status-stopped"@ {
        Some("Stopped"@)
    } else if key == "status-completed"@ {
        Some("Completed"@)
    } else if key == "error-title"@ {
        Some("Error"@)
    } else if key == "error-no-smtp-server"@ {
        Some("Please enter SMTP server address"@)
    } else if key == "error-no-sender"@ {
        Some("Please enter sender address"@)
    } else if key == "error-no-recipient"@ {
        Some("Please enter recipient address"@)
    } else if key == "error-no-eml-dir"@ {
        Some("Please select EML directory"@)
    } else if key == "error-no-attachment"@ {
        Some("Please select attachment file"@)
    } else if key == "error-no-attachment-dir"@ {
        Some("Please select attachment directory"@)
    } else if key == "error-no-username"@ {
        Some("Authentication requires username"@)
    } else if key == "error-no-password"@ {
        Some("Authentication requires password"@)
    } else if key == "filename-hint"@ {
        Some("Use {filename} for auto filename insertion"@)
    } else {
        None
    }
}

fn en_2(key: &str) -> (r: Option<String>)
    ensures
        match (&r, spec_en_2(key@)) {
            (Some(a), Some(b)) => a@ == b,
            (None, None) => true,
            _ => false,
        },
{
    if strutil::str_eq(key, "send-log") {
        Some("Send Log".to_owned())
    } else if strutil::str_eq(key, "clear") {
        Some("Clear".to_owned())
    } else if strutil::str_eq(key, "export-log") {
        Some("Export Log".to_owned())
    } else if strutil::str_eq(key, "save-config") {
        Some("Save Config".to_owned())
    } else if strutil::str_eq(key, "load-config") {
        Some("Load Config".to_owned())
    } else if strutil::str_eq(key, "test-connection") {
        Some("Test Connection".to_owned())
    } else if strutil::str_eq(key, "start-send") {
        Some("Start Send".to_owned())
    } else if strutil::str_eq(key, "stop-send") {
        Some("Stop Send".to_owned())
    } else if strutil::str_eq(key, "language") {
        Some("Language".to_owned())
    } else if strutil::str_eq(key, "status-ready") {
        Some("Ready".to_owned())
    } else if strutil::str_eq(key, "status-preparing") {
        Some("Preparing...".to_owned())
    } else if strutil::str_eq(key, "status-sending") {
        Some("Sending...".to_owned())
    } else if strutil::str_eq(key, "status-stopped") {
        Some("Stopped".to_owned())
    } else if strutil::str_eq(key, "status-completed") {
        Some("Completed".to_owned())
    } else if strutil::str_eq(key, "error-title") {
        Some("Error".to_owned())
    } else if strutil::str_eq(key, "error-no-smtp-server") {
        Some("Please enter SMTP server address".to_owned())
    } else if strutil::str_eq(key, "error-no-sender") {
        Some("Please enter sender address".to_owned())
    } else if strutil::str_eq(key, "error-no-recipient") {
        Some("Please enter recipient address".to_owned())
    } else if strutil::str_eq(key, "error-no-eml-dir") {
        Some("Please select EML directory".to_owned())
    } else if strutil::str_eq(key, "error-no-attachment") {
        Some("Please select attachment file".to_owned())
    } else if strutil::str_eq(key, "error-no-attachment-dir") {
        Some("Please select attachment directory".to_owned())
    } else if strutil::str_eq(key, "error-no-username") {
        Some("Authentication requires username".to_owned())
    } else if strutil::str_eq(key, "error-no-password") {
        Some("Authentication requires password".to_owned())
    } else if strutil::str_eq(key, "filename-hint") {
        Some("Use {filename} for auto filename insertion".to_owned())
    } else {
        None
    }
}

pub open spec fn spec_zh_cn_0(key: Seq<char>) -> Option<Seq<char>> {
    if key == "app-title"@ {
        Some("RSendMail"@)
    } else if key == "smtp-server"@ {
        Some("SMTP 服务器"@)
    } else if key == "server-address"@ {
        Some("服务器地址"@)
    } else if key == "port"@ {
        Some("端口"@)
    } else if key == "use-tls"@ {
        Some("使用 TLS"@)
    } else if key == "accept-invalid-certs"@ {
        Some("接受自签名证书"@)
    } else if key == "auth-required"@ {
        Some("需要认证"@)
    } else if key == "username"@ {
        Some("用户名"@)
    } else if key == "password"@ {
        Some("密码"@)
    } else if key == "sender"@ {
        Some("发件人"@)
    } else if key == "recipient"@ {
        Some("收件人"@)
    } else if key == "recipient-hint"@ {
        Some("(多个地址请用逗号分隔)"@)
    } else if key == "send-mode"@ {
        Some("发送模式"@)
    } else if key == "eml-batch"@ {
        Some("EML 批量"@)
    } else if key == "single-attachment"@ {
        Some("单个附件"@)
    } else if key == "dir-attachment"@ {
        Some("目录附件"@)
    } else if key == "eml-directory"@ {
        Some("EML 目录"@)
    } else if key == "attachment-file"@ {
        Some("附件文件"@)
    } else if key == "attachment-directory"@ {
        Some("附件目录"@)
    } else if key == "extension"@ {
        Some("扩展名"@)
    } else if key == "browse"@ {
        Some("浏览..."@)
    } else if key == "email-subject"@ {
        Some("邮件主题"@)
    } else if key == "email-body"@ {
        Some("邮件正文"@)
    } else if key == "filename-hint"@ {
        Some("使用 {filename} 自动插入文件名"@)
    } else if key == "advanced-options"@ {
        Some("高级选项"@)
    } else {
        None
    }
}

fn zh_cn_0(key: &str) -> (r: Option<String>)
    ensures
        match (&r, spec_zh_cn_0(key@)) {
            (Some(a), Some(b)) => a@ == b,
            (None, None) => true,
            _ => false,
        },
{
    if strutil::str_eq(key, "app-title") {
        Some("RSendMail".to_owned())
    } else if strutil::str_eq(key, "smtp-server") {
        Some("SMTP 服务器".to_owned())
    } else if strutil::str_eq(key, "server-address") {
        Some("服务器地址".to_owned())
    } else if strutil::str_eq(key, "port") {
        Some("端口".to_owned())
    } else if strutil::str_eq(key, "use-tls") {
        Some("使用 TLS".to_owned())
    } else if strutil::str_eq(key, "accept-invalid-certs") {
        Some("接受自签名证书".to_owned())
    } else if strutil::str_eq(key, "auth-required") {
        Some("需要认证".to_owned())
    } else if strutil::str_eq(key, "username") {
        Some("用户名".to_owned())
    } else if strutil::str_eq(key, "password") {
        Some("密码".to_owned())
    } else if strutil::str_eq(key, "sender") {
        Some("发件人".to_owned())
    } else if strutil::str_eq(key, "recipient") {
        Some("收件人".to_owned())
    } else if strutil::str_eq(key, "recipient-hint") {
        Some("(多个地址请用逗号分隔)".to_owned())
    } else if strutil::str_eq(key, "send-mode") {
        Some("发送模式".to_owned())
    } else if strutil::str_eq(key, "eml-batch") {
        Some("EML 批量".to_owned())
    } else if strutil::str_eq(key, "single-attachment") {
        Some("单个附件".to_owned())
    } else if strutil::str_eq(key, "dir-attachment") {
        Some("目录附件".to_owned())
    } else if strutil::str_eq(key, "eml-directory") {
        Some("EML 目录".to_owned())
    } else if strutil::str_eq(key, "attachment-file") {
        Some("附件文件".to_owned())
    } else if strutil::str_eq(key, "attachment-directory") {
        Some("附件目录".to_owned())
    } else if strutil::str_eq(key, "extension") {
        Some("扩展名".to_owned())
    } else if strutil::str_eq(key, "browse") {
        Some("浏览...".to_owned())
    } else if strutil::str_eq(key, "email-subject") {
        Some("邮件主题".to_owned())
    } else if strutil::str_eq(key, "email-body") {
        Some("邮件正文".to_owned())
    } else if strutil::str_eq(key, "filename-hint") {
        Some("使用 {filename} 自动插入文件名".to_owned())
    } else if strutil::str_eq(key, "advanced-options") {
        Some("高级选项".to_owned())
    } else {
        None
    }
}

pub open spec fn spec_zh_cn_1(key: Seq<char>) -> Option<Seq<char>> {
    if key == "performance"@ {
        Some("性能配置"@)
    } else if key == "processes"@ {
        Some("进程数"@)
    } else if key == "batch-size"@ {
        Some("批量大小"@)
    } else if key == "send-interval"@ {
        Some("发送间隔(ms)"@)
    } else if key == "timeout"@ {
        Some("超时(秒)"@)
    } else if key == "loop-settings"@ {
        Some("循环发送"@)
    } else if key == "infinite-loop"@ {
        Some("无限循环"@)
    } else if key == "repeat-count"@ {
        Some("重复次数"@)
    } else if key == "loop-interval"@ {
        Some("循环间隔(秒)"@)
    } else if key == "retry-interval"@ {
        Some("重试间隔(秒)"@)
    } else if key == "email-processing"@ {
        Some("邮件处理"@)
    } else if key == "keep-headers"@ {
        Some("保留原始邮件头"@)
    } else if key == "modify-headers"@ {
        Some("修改邮件头"@)
    } else if key == "anonymize-emails"@ {
        Some("匿名化邮箱"@)
    } else if key == "domain"@ {
        Some("域名"@)
    } else if key == "logging"@ {
        Some("日志与错误处理"@)
    } else if key == "log-level"@ {
        Some("日志级别"@)
    } else if key == "log-file"@ {
        Some("日志文件"@)
    } else if key == "failed-emails-dir"@ {
        Some("失败邮件"@)
    } else if key == "optional"@ {
        Some("(可选)"@)
    } else if key == "statistics"@ {
        Some("发送统计"@)
    } else if key == "total"@ {
        Some("总计"@)
    } else if key == "success"@ {
        Some("成功"@)
    } else if key == "failed"@ {
        Some("失败"@)
    } else if key == "current-round"@ {
        Some("当前轮次"@)
    } else {
        None
    }
}

fn zh_cn_1(key: &str) -> (r: Option<String>)
    ensures
        match (&r, spec_zh_cn_1(key@)) {
            (Some(a), Some(b)) => a@ == b,
            (None, None) => true,
            _ => false,
        },
{
    if strutil::str_eq(key, "performance") {
        Some("性能配置".to_owned())
    } else if strutil::str_eq(key, "processes") {
        Some("进程数".to_owned())
    } else if strutil::str_eq(key, "batch-size") {
        Some("批量大小".to_owned())
    } else if strutil::str_eq(key, "send-interval") {
        Some("发送间隔(ms)".to_owned())
    } else if strutil::str_eq(key, "timeout") {
        Some("超时(秒)".to_owned())
    } else if strutil::str_eq(key, "loop-settings") {
        Some("循环发送".to_owned())
    } else if strutil::str_eq(key, "infinite-loop") {
        Some("无限循环".to_owned())
    } else if strutil::str_eq(key, "repeat-count") {
        Some("重复次数".to_owned())
    } else if strutil::str_eq(key, "loop-interval") {
        Some("循环间隔(秒)".to_owned())
    } else if strutil::str_eq(key, "retry-interval") {
        Some("重试间隔(秒)".to_owned())
    } else if strutil::str_eq(key, "email-processing") {
        Some("邮件处理".to_owned())
    } else if strutil::str_eq(key, "keep-headers") {
        Some("保留原始邮件头".to_owned())
    } else if strutil::str_eq(key, "modify-headers") {
        Some("修改邮件头".to_owned())
    } else if strutil::str_eq(key, "anonymize-emails") {
        Some("匿名化邮箱".to_owned())
    } else if strutil::str_eq(key, "domain") {
        Some("域名".to_owned())
    } else if strutil::str_eq(key, "logging") {
        Some("日志与错误处理".to_owned())
    } else if strutil::str_eq(key, "log-level") {
        Some("日志级别".to_owned())
    } else if strutil::str_eq(key, "log-file") {
        Some("日志文件".to_owned())
    } else if strutil::str_eq(key, "failed-emails-dir") {
        Some("失败邮件".to_owned())
    } else if strutil::str_eq(key, "optional") {
        Some("(可选)".to_owned())
    } else if strutil::str_eq(key, "statistics") {
        Some("发送统计".to_owned())
    } else if strutil::str_eq(key, "total") {
        Some("总计".to_owned())
    } else if strutil::str_eq(key, "success") {
        Some("成功".to_owned())
    } else if strutil::str_eq(key, "failed") {
        Some("失败".to_owned())
    } else if strutil::str_eq(key, "current-round") {
        Some("当前轮次".to_owned())
    } else {
        None
    }
}

pub open spec fn spec_zh_cn_2(key: Seq<char>) -> Option<Seq<char>> {
    if key == "elapsed-time"@ {
        Some("已用时间"@)
    } else if key == "send-log"@ {
        Some("发送日志"@)
    } else if key == "clear"@ {
        Some("清空"@)
    } else if key == "export-log"@ {
        Some("导出日志"@)
    } else if key == "save-config"@ {
        Some("保存配置"@)
    } else if key == "load-config"@ {
        Some("加载配置"@)
    } else if key == "test-connection"@ {
        Some("测试连接"@)
    } else if key == "start-send"@ {
        Some("开始发送"@)
    } else if key == "stop-send"@ {
        Some("停止发送"@)
    } else if key == "language"@ {
        Some("语言"@)
    } else if key == "status-ready"@ {
        Some("就绪"@)
    } else if key == "status-preparing"@ {
        Some("准备中..."@)
    } else if key == "status-sending"@ {
        Some("发送中..."@)
    } else if key == "status-stopped"@ {
        Some("已停止"@)
    } else if key == "status-completed"@ {
        Some("完成"@)
    } else if key == "error-title"@ {
        Some("错误"@)
    } else if key == "error-no-smtp-server"@ {
        Some("请输入 SMTP 服务器地址"@)
    } else if key == "error-no-sender"@ {
        Some("请输入发件人地址"@)
    } else if key == "error-no-recipient"@ {
        Some("请输入收件人地址"@)
    } else if key == "error-no-eml-dir"@ {
        Some("请选择 EML 文件目录"@)
    } else if key == "error-no-attachment"@ {
        Some("请选择附件文件"@)
    } else if key == "error-no-attachment-dir"@ {
        Some("请选择附件目录"@)
    } else if key == "error-no-username"@ {
        Some("认证模式需要输入用户名"@)
    } else if key == "error-no-password"@ {
        Some("认证模式需要输入密码"@)
    } else {
        None
    }
}

fn zh_cn_2(key: &str) -> (r: Option<String>)
    ensures
        match (&r, spec_zh_cn_2(key@)) {
            (Some(a), Some(b)) => a@ == b,
            (None, None) => true,
            _ => false,
        },
{
    if strutil::str_eq(key, "elapsed-time") {
        Some("已用时间".to_owned())
    } else if strutil::str_eq(key, "send-log") {
        Some("发送日志".to_owned())
    } else if strutil::str_eq(key, "clear") {
        Some("清空".to_owned())
    } else if strutil::str_eq(key, "export-log") {
        Some("导出日志".to_owned())
    } else if strutil::str_eq(key, "save-config") {
        Some("保存配置".to_owned())
    } else if strutil::str_eq(key, "load-config") {
        Some("加载配置".to_owned())
    } else if strutil::str_eq(key, "test-connection") {
        Some("测试连接".to_owned())
    } else if strutil::str_eq(key, "start-send") {
        Some("开始发送".to_owned())
    } else if strutil::str_eq(key, "stop-send") {
        Some("停止发送".to_owned())
    } else if strutil::str_eq(key, "language") {
        Some("语言".to_owned())
    } else if strutil::str_eq(key, "status-ready") {
        Some("就绪".to_owned())
    } else if strutil::str_eq(key, "status-preparing") {
        Some("准备中...".to_owned())
    } else if strutil::str_eq(key, "status-sending") {
        Some("发送中...".to_owned())
    } else if strutil::str_eq(key, "status-stopped") {
        Some("已停止".to_owned())
    } else if strutil::str_eq(key, "status-completed") {
        Some("完成".to_owned())
    } else if strutil::str_eq(key, "error-title") {
        Some("错误".to_owned())
    } else if strutil::str_eq(key, "error-no-smtp-server") {
        Some("请输入 SMTP 服务器地址".to_owned())
    } else if strutil::str_eq(key, "error-no-sender") {
        Some("请输入发件人地址".to_owned())
    } else if strutil::str_eq(key, "error-no-recipient") {
        Some("请输入收件人地址".to_owned())
    } else if strutil::str_eq(key, "error-no-eml-dir") {
        Some("请选择 EML 文件目录".to_owned())
    } else if strutil::str_eq(key, "error-no-attachment") {
        Some("请选择附件文件".to_owned())
    } else if strutil::str_eq(key, "error-no-attachment-dir") {
        Some("请选择附件目录".to_owned())
    } else if strutil::str_eq(key, "error-no-username") {
        Some("认证模式需要输入用户名".to_owned())
    } else if strutil::str_eq(key, "error-no-password") {
        Some("认证模式需要输入密码".to_owned())
    } else {
        None
    }
}

pub open spec fn spec_zh_tw_0(key: Seq<char>) -> Option<Seq<char>> {
    if key == "app-title"@ {
        Some("RSendMail"@)
    } else if key == "smtp-server"@ {
        Some("SMTP 伺服器"@)
    } else if key == "server-address"@ {
        Some("伺服器地址"@)
    } else if key == "port"@ {
        Some("連接埠"@)
    } else if key == "use-tls"@ {
        Some("使用 TLS"@)
    } else if key == "accept-invalid-certs"@ {
        Some("接受自簽名憑證"@)
    } else if key == "auth-required"@ {
        Some("需要認證"@)
    } else if key == "username"@ {
        Some("使用者名稱"@)
    } else if key == "password"@ {
        Some("密碼"@)
    } else if key == "sender"@ {
        Some("寄件人"@)
    } else if key == "recipient"@ {
        Some("收件人"@)
    } else if key == "recipient-hint"@ {
        Some("(多個地址請用逗號分隔)"@)
    } else if key == "send-mode"@ {
        Some("發送模式"@)
    } else if key == "eml-batch"@ {
        Some("EML 批次"@)
    } else if key == "single-attachment"@ {
        Some("單一附件"@)
    } else if key == "dir-attachment"@ {
        Some("目錄附件"@)
    } else if key == "eml-directory"@ {
        Some("EML 目錄"@)
    } else if key == "attachment-file"@ {
        Some("附件檔案"@)
    } else if key == "attachment-directory"@ {
        Some("附件目錄"@)
    } else if key == "extension"@ {
        Some("副檔名"@)
    } else if key == "browse"@ {
        Some("瀏覽..."@)
    } else if key == "email-subject"@ {
        Some("郵件主旨"@)
    } else if key == "email-body"@ {
        Some("郵件內文"@)
    } else if key == "filename-hint"@ {
        Some("使用 {filename} 自動插入檔案名稱"@)
    } else if key == "advanced-options"@ {
        Some("進階選項"@)
    } else {
        None
    }
}

fn zh_tw_0(key: &str) -> (r: Option<String>)
    ensures
        match (&r, spec_zh_tw_0(key@)) {
            (Some(a), Some(b)) => a@ == b,
            (None, None) => true,
            _ => false,
        },
{
    if strutil::str_eq(key, "app-title") {
        Some("RSendMail".to_owned())
    } else if strutil::str_eq(key, "smtp-server") {
        Some("SMTP 伺服器".to_owned())
    } else if strutil::str_eq(key, "server-address") {
        Some("伺服器地址".to_owned())
    } else if strutil::str_eq(key, "port") {
        Some("連接埠".to_owned())
    } else if strutil::str_eq(key, "use-tls") {
        Some("使用 TLS".to_owned())
    } else if strutil::str_eq(key, "accept-invalid-certs") {
        Some("接受自簽名憑證".to_owned())
    } else if strutil::str_eq(key, "auth-required") {
        Some("需要認證".to_owned())
    } else if strutil::str_eq(key, "username") {
        Some("使用者名稱".to_owned())
    } else if strutil::str_eq(key, "password") {
        Some("密碼".to_owned())
    } else if strutil::str_eq(key, "sender") {
        Some("寄件人".to_owned())
    } else if strutil::str_eq(key, "recipient") {
        Some("收件人".to_owned())
    } else if strutil::str_eq(key, "recipient-hint") {
        Some("(多個地址請用逗號分隔)".to_owned())
    } else if strutil::str_eq(key, "send-mode") {
        Some("發送模式".to_owned())
    } else if strutil::str_eq(key, "eml-batch") {
        Some("EML 批次".to_owned())
    } else if strutil::str_eq(key, "single-attachment") {
        Some("單一附件".to_owned())
    } else if strutil::str_eq(key, "dir-attachment") {
        Some("目錄附件".to_owned())
    } else if strutil::str_eq(key, "eml-directory") {
        Some("EML 目錄".to_owned())
    } else if strutil::str_eq(key, "attachment-file") {
        Some("附件檔案".to_owned())
    } else if strutil::str_eq(key, "attachment-directory") {
        Some("附件目錄".to_owned())
    } else if strutil::str_eq(key, "extension") {
        Some("副檔名".to_owned())
    } else if strutil::str_eq(key, "browse") {
        Some("瀏覽...".to_owned())
    } else if strutil::str_eq(key, "email-subject") {
        Some("郵件主旨".to_owned())
    } else if strutil::str_eq(key, "email-body") {
        Some("郵件內文".to_owned())
    } else if strutil::str_eq(key, "filename-hint") {
        Some("使用 {filename} 自動插入檔案名稱".to_owned())
    } else if strutil::str_eq(key, "advanced-options") {
        Some("進階選項".to_owned())
    } else {
        None
    }
}

pub open spec fn spec_zh_tw_1(key: Seq<char>) -> Option<Seq<char>> {
    if key == "performance"@ {
        Some("效能設定"@)
    } else if key == "processes"@ {
        Some("處理程序數"@)
    } else if key == "batch-size"@ {
        Some("批次大小"@)
    } else if key == "send-interval"@ {
        Some("發送間隔(ms)"@)
    } else if key == "timeout"@ {
        Some("逾時(秒)"@)
    } else if key == "loop-settings"@ {
        Some("循環發送"@)
    } else if key == "infinite-loop"@ {
        Some("無限循環"@)
    } else if key == "repeat-count"@ {
        Some("重複次數"@)
    } else if key == "loop-interval"@ {
        Some("循環間隔(秒)"@)
    } else if key == "retry-interval"@ {
        Some("重試間隔(秒)"@)
    } else if key == "email-processing"@ {
        Some("郵件處理"@)
    } else if key == "keep-headers"@ {
        Some("保留原始郵件標頭"@)
    } else if key == "modify-headers"@ {
        Some("修改郵件標頭"@)
    } else if key == "anonymize-emails"@ {
        Some("匿名化郵箱"@)
    } else if key == "domain"@ {
        Some("網域"@)
    } else if key == "logging"@ {
        Some("日誌與錯誤處理"@)
    } else if key == "log-level"@ {
        Some("日誌等級"@)
    } else if key == "log-file"@ {
        Some("日誌檔案"@)
    } else if key == "failed-emails-dir"@ {
        Some("失敗郵件"@)
    } else if key == "optional"@ {
        Some("(選填)"@)
    } else if key == "statistics"@ {
        Some("發送統計"@)
    } else if key == "total"@ {
        Some("總計"@)
    } else if key == "success"@ {
        Some("成功"@)
    } else if key == "failed"@ {
        Some("失敗"@)
    } else if key == "current-round"@ {
        Some("目前輪次"@)
    } else {
        None
    }
}

fn zh_tw_1(key: &str) -> (r: Option<String>)
    ensures
        match (&r, spec_zh_tw_1(key@)) {
            (Some(a), Some(b)) => a@ == b,
            (None, None) => true,
            _ => false,
        },
{
    if strutil::str_eq(key, "performance") {
        Some("效能設定".to_owned())
    } else if strutil::str_eq(key, "processes") {
        Some("處理程序數".to_owned())
    } else if strutil::str_eq(key, "batch-size") {
        Some("批次大小".to_owned())
    } else if strutil::str_eq(key, "send-interval") {
        Some("發送間隔(ms)".to_owned())
    } else if strutil::str_eq(key, "timeout") {
        Some("逾時(秒)".to_owned())
    } else if strutil::str_eq(key, "loop-settings") {
        Some("循環發送".to_owned())
    } else if strutil::str_eq(key, "infinite-loop") {
        Some("無限循環".to_owned())
    } else if strutil::str_eq(key, "repeat-count") {
        Some("重複次數".to_owned())
    } else if strutil::str_eq(key, "loop-interval") {
        Some("循環間隔(秒)".to_owned())
    } else if strutil::str_eq(key, "retry-interval") {
        Some("重試間隔(秒)".to_owned())
    } else if strutil::str_eq(key, "email-processing") {
        Some("郵件處理".to_owned())
    } else if strutil::str_eq(key, "keep-headers") {
        Some("保留原始郵件標頭".to_owned())
    } else if strutil::str_eq(key, "modify-headers") {
        Some("修改郵件標頭".to_owned())
    } else if strutil::str_eq(key, "anonymize-emails") {
        Some("匿名化郵箱".to_owned())
    } else if strutil::str_eq(key, "domain") {
        Some("網域".to_owned())
    } else if strutil::str_eq(key, "logging") {
        Some("日誌與錯誤處理".to_owned())
    } else if strutil::str_eq(key, "log-level") {
        Some("日誌等級".to_owned())
    } else if strutil::str_eq(key, "log-file") {
        Some("日誌檔案".to_owned())
    } else if strutil::str_eq(key, "failed-emails-dir") {
        Some("失敗郵件".to_owned())
    } else if strutil::str_eq(key, "optional") {
        Some("(選填)".to_owned())
    } else if strutil::str_eq(key, "statistics") {
        Some("發送統計".to_owned())
    } else if strutil::str_eq(key, "total") {
        Some("總計".to_owned())
    } else if strutil::str_eq(key, "success") {
        Some("成功".to_owned())
    } else if strutil::str_eq(key, "failed") {
        Some("失敗".to_owned())
    } else if strutil::str_eq(key, "current-round") {
        Some("目前輪次".to_owned())
    } else {
        None
    }
}

pub open spec fn spec_zh_tw_2(key: Seq<char>) -> Option<Seq<char>> {
    if key == "elapsed-time"@ {
        Some("已用時間"@)
    } else if key == "send-log"@ {
        Some("發送日誌"@)
    } else if key == "clear"@ {
        Some("清空"@)
    } else if key == "export-log"@ {
        Some("匯出日誌"@)
    } else if key == "save-config"@ {
        Some("儲存設定"@)
    } else if key == "load-config"@ {
        Some("載入設定"@)
    } else if key == "test-connection"@ {
        Some("測試連線"@)
    } else if key == "start-send"@ {
        Some("開始發送"@)
    } else if key == "stop-send"@ {
        Some("停止發送"@)
    } else if key == "language"@ {
        Some("語言"@)
    } else if key == "status-ready"@ {
        Some("就緒"@)
    } else if key == "status-preparing"@ {
        Some("準備中..."@)
    } else if key == "status-sending"@ {
        Some("發送中..."@)
    } else if key == "status-stopped"@ {
        Some("已停止"@)
    } else if key == "status-completed"@ {
        Some("完成"@)
    } else if key == "error-title"@ {
        Some("錯誤"@)
    } else if key == "error-no-smtp-server"@ {
        Some("請輸入 SMTP 伺服器地址"@)
    } else if key == "error-no-sender"@ {
        Some("請輸入寄件人地址"@)
    } else if key == "error-no-recipient"@ {
        Some("請輸入收件人地址"@)
    } else if key == "error-no-eml-dir"@ {
        Some("請選擇 EML 檔案目錄"@)
    } else if key == "error-no-attachment"@ {
        Some("請選擇附件檔案"@)
    } else if key == "error-no-attachment-dir"@ {
        Some("請選擇附件目錄"@)
    } else if key == "error-no-username"@ {
        Some("認證模式需要輸入使用者名稱"@)
    } else if key == "error-no-password"@ {
        Some("認證模式需要輸入密碼"@)
    } else {
        None
    }
}

fn zh_tw_2(key: &str) -> (r: Option<String>)
    ensures
        match (&r, spec_zh_tw_2(key@)) {
            (Some(a), Some(b)) => a@ == b,
            (None, None) => true,
            _ => false,
        },
{
    if strutil::str_eq(key, "elapsed-time") {
        Some("已用時間".to_owned())
    } else if strutil::str_eq(key, "send-log") {
        Some("發送日誌".to_owned())
    } else if strutil::str_eq(key, "clear") {
        Some("清空".to_owned())
    } else if strutil::str_eq(key, "export-log") {
        Some("匯出日誌".to_owned())
    } else if strutil::str_eq(key, "save-config") {
        Some("儲存設定".to_owned())
    } else if strutil::str_eq(key, "load-config") {
        Some("載入設定".to_owned())
    } else if strutil::str_eq(key, "test-connection") {
        Some("測試連線".to_owned())
    } else if strutil::str_eq(key, "start-send") {
        Some("開始發送".to_owned())
    } else if strutil::str_eq(key, "stop-send") {
        Some("停止發送".to_owned())
    } else if strutil::str_eq(key, "language") {
        Some("語言".to_owned())
    } else if strutil::str_eq(key, "status-ready") {
        Some("就緒".to_owned())
    } else if strutil::str_eq(key, "status-preparing") {
        Some("準備中...".to_owned())
    } else if strutil::str_eq(key, "status-sending") {
        Some("發送中...".to_owned())
    } else if strutil::str_eq(key, "status-stopped") {
        Some("已停止".to_owned())
    } else if strutil::str_eq(key, "status-completed") {
        Some("完成".to_owned())
    } else if strutil::str_eq(key, "error-title") {
        Some("錯誤".to_owned())
    } else if strutil::str_eq(key, "error-no-smtp-server") {
        Some("請輸入 SMTP 伺服器地址".to_owned())
    } else if strutil::str_eq(key, "error-no-sender") {
        Some("請輸入寄件人地址".to_owned())
    } else if strutil::str_eq(key, "error-no-recipient") {
        Some("請輸入收件人地址".to_owned())
    } else if strutil::str_eq(key, "error-no-eml-dir") {
        Some("請選擇 EML 檔案目錄".to_owned())
    } else if strutil::str_eq(key, "error-no-attachment") {
        Some("請選擇附件檔案".to_owned())
    } else if strutil::str_eq(key, "error-no-attachment-dir") {
        Some("請選擇附件目錄".to_owned())
    } else if strutil::str_eq(key, "error-no-username") {
        Some("認證模式需要輸入使用者名稱".to_owned())
    } else if strutil::str_eq(key, "error-no-password") {
        Some("認證模式需要輸入密碼".to_owned())
    } else {
        None
    }
}

pub open spec fn spec_ja_0(key: Seq<char>) -> Option<Seq<char>> {
    if key == "app-title"@ {
        Some("RSendMail"@)
    } else if key == "smtp-server"@ {
        Some("SMTP サーバー"@)
    } else if key == "server-address"@ {
        Some("サーバーアドレス"@)
    } else if key == "port"@ {
        Some("ポート"@)
    } else if key == "use-tls"@ {
        Some("TLS を使用"@)
    } else if key == "accept-invalid-certs"@ {
        Some("自己署名証明書を許可"@)
    } else if key == "auth-required"@ {
        Some("認証が必要"@)
    } else if key == "username"@ {
        Some("ユーザー名"@)
    } else if key == "password"@ {
        Some("パスワード"@)
    } else if key == "sender"@ {
        Some("送信者"@)
    } else if key == "recipient"@ {
        Some("受信者"@)
    } else if key == "recipient-hint"@ {
        Some("(複数はカンマ区切り)"@)
    } else if key == "send-mode"@ {
        Some("送信モード"@)
    } else if key == "eml-batch"@ {
        Some("EML 一括"@)
    } else if key == "single-attachment"@ {
        Some("単一添付"@)
    } else if key == "dir-attachment"@ {
        Some("フォルダ添付"@)
    } else if key == "eml-directory"@ {
        Some("EML フォルダ"@)
    } else if key == "attachment-file"@ {
        Some("添付ファイル"@)
    } else if key == "attachment-directory"@ {
        Some("添付フォルダ"@)
    } else if key == "extension"@ {
        Some("拡張子"@)
    } else if key == "browse"@ {
        Some("参照..."@)
    } else if key == "email-subject"@ {
        Some("メール件名"@)
    } else if key == "email-body"@ {
        Some("メール本文"@)
    } else if key == "filename-hint"@ {
        Some("{filename} でファイル名を自動挿入"@)
    } else if key == "advanced-options"@ {
        Some("詳細オプション"@)
    } else {
        None
    }
}

fn ja_0(key: &str) -> (r: Option<String>)
    ensures
        match (&r, spec_ja_0(key@)) {
            (Some(a), Some(b)) => a@ == b,
            (None, None) => true,
            _ => false,
        },
{
    if strutil::str_eq(key, "app-title") {
        Some("RSendMail".to_owned())
    } else if strutil::str_eq(key, "smtp-server") {
        Some("SMTP サーバー".to_owned())
    } else if strutil::str_eq(key, "server-address") {
        Some("サーバーアドレス".to_owned())
    } else if strutil::str_eq(key, "port") {
        Some("ポート".to_owned())
    } else if strutil::str_eq(key, "use-tls") {
        Some("TLS を使用".to_owned())
    } else if strutil::str_eq(key, "accept-invalid-certs") {
        Some("自己署名証明書を許可".to_owned())
    } else if strutil::str_eq(key, "auth-required") {
        Some("認証が必要".to_owned())
    } else if strutil::str_eq(key, "username") {
        Some("ユーザー名".to_owned())
    } else if strutil::str_eq(key, "password") {
        Some("パスワード".to_owned())
    } else if strutil::str_eq(key, "sender") {
        Some("送信者".to_owned())
    } else if strutil::str_eq(key, "recipient") {
        Some("受信者".to_owned())
    } else if strutil::str_eq(key, "recipient-hint") {
        Some("(複数はカンマ区切り)".to_owned())
    } else if strutil::str_eq(key, "send-mode") {
        Some("送信モード".to_owned())
    } else if strutil::str_eq(key, "eml-batch") {
        Some("EML 一括".to_owned())
    } else if strutil::str_eq(key, "single-attachment") {
        Some("単一添付".to_owned())
    } else if strutil::str_eq(key, "dir-attachment") {
        Some("フォルダ添付".to_owned())
    } else if strutil::str_eq(key, "eml-directory") {
        Some("EML フォルダ".to_owned())
    } else if strutil::str_eq(key, "attachment-file") {
        Some("添付ファイル".to_owned())
    } else if strutil::str_eq(key, "attachment-directory") {
        Some("添付フォルダ".to_owned())
    } else if strutil::str_eq(key, "extension") {
        Some("拡張子".to_owned())
    } else if strutil::str_eq(key, "browse") {
        Some("参照...".to_owned())
    } else if strutil::str_eq(key, "email-subject") {
        Some("メール件名".to_owned())
    } else if strutil::str_eq(key, "email-body") {
        Some("メール本文".to_owned())
    } else if strutil::str_eq(key, "filename-hint") {
        Some("{filename} でファイル名を自動挿入".to_owned())
    } else if strutil::str_eq(key, "advanced-options") {
        Some("詳細オプション".to_owned())
    } else {
        None
    }
}

pub open spec fn spec_ja_1(key: Seq<char>) -> Option<Seq<char>> {
    if key == "performance"@ {
        Some("パフォーマンス設定"@)
    } else if key == "processes"@ {
        Some("プロセス数"@)
    } else if key == "batch-size"@ {
        Some("バッチサイズ"@)
    } else if key == "send-interval"@ {
        Some("送信間隔(ms)"@)
    } else if key == "timeout"@ {
        Some("タイムアウト(秒)"@)
    } else if key == "loop-settings"@ {
        Some("ループ送信"@)
    } else if key == "infinite-loop"@ {
        Some("無限ループ"@)
    } else if key == "repeat-count"@ {
        Some("繰り返し回数"@)
    } else if key == "loop-interval"@ {
        Some("ループ間隔(秒)"@)
    } else if key == "retry-interval"@ {
        Some("リトライ間隔(秒)"@)
    } else if key == "email-processing"@ {
        Some("メール処理"@)
    } else if key == "keep-headers"@ {
        Some("元のヘッダーを保持"@)
    } else if key == "modify-headers"@ {
        Some("ヘッダーを変更"@)
    } else if key == "anonymize-emails"@ {
        Some("メールを匿名化"@)
    } else if key == "domain"@ {
        Some("ドメイン"@)
    } else if key == "logging"@ {
        Some("ログとエラー処理"@)
    } else if key == "log-level"@ {
        Some("ログレベル"@)
    } else if key == "log-file"@ {
        Some("ログファイル"@)
    } else if key == "failed-emails-dir"@ {
        Some("失敗メール"@)
    } else if key == "optional"@ {
        Some("(任意)"@)
    } else if key == "statistics"@ {
        Some("送信統計"@)
    } else if key == "total"@ {
        Some("合計"@)
    } else if key == "success"@ {
        Some("成功"@)
    } else if key == "failed"@ {
        Some("失敗"@)
    } else if key == "current-round"@ {
        Some("現在のラウンド"@)
    } else {
        None
    }
}

fn ja_1(key: &str) -> (r: Option<String>)
    ensures
        match (&r, spec_ja_1(key@)) {
            (Some(a), Some(b)) => a@ == b,
            (None, None) => true,
            _ => false,
        },
{
    if strutil::str_eq(key, "performance") {
        Some("パフォーマンス設定".to_owned())
    } else if strutil::str_eq(key, "processes") {
        Some("プロセス数".to_owned())
    } else if strutil::str_eq(key, "batch-size") {
        Some("バッチサイズ".to_owned())
    } else if strutil::str_eq(key, "send-interval") {
        Some("送信間隔(ms)".to_owned())
    } else if strutil::str_eq(key, "timeout") {
        Some("タイムアウト(秒)".to_owned())
    } else if strutil::str_eq(key, "loop-settings") {
        Some("ループ送信".to_owned())
    } else if strutil::str_eq(key, "infinite-loop") {
        Some("無限ループ".to_owned())
    } else if strutil::str_eq(key, "repeat-count") {
        Some("繰り返し回数".to_owned())
    } else if strutil::str_eq(key, "loop-interval") {
        Some("ループ間隔(秒)".to_owned())
    } else if strutil::str_eq(key, "retry-interval") {
        Some("リトライ間隔(秒)".to_owned())
    } else if strutil::str_eq(key, "email-processing") {
        Some("メール処理".to_owned())
    } else if strutil::str_eq(key, "keep-headers") {
        Some("元のヘッダーを保持".to_owned())
    } else if strutil::str_eq(key, "modify-headers") {
        Some("ヘッダーを変更".to_owned())
    } else if strutil::str_eq(key, "anonymize-emails") {
        Some("メールを匿名化".to_owned())
    } else if strutil::str_eq(key, "domain") {
        Some("ドメイン".to_owned())
    } else if strutil::str_eq(key, "logging") {
        Some("ログとエラー処理".to_owned())
    } else if strutil::str_eq(key, "log-level") {
        Some("ログレベル".to_owned())
    } else if strutil::str_eq(key, "log-file") {
        Some("ログファイル".to_owned())
    } else if strutil::str_eq(key, "failed-emails-dir") {
        Some("失敗メール".to_owned())
    } else if strutil::str_eq(key, "optional") {
        Some("(任意)".to_owned())
    } else if strutil::str_eq(key, "statistics") {
        Some("送信統計".to_owned())
    } else if strutil::str_eq(key, "total") {
        Some("合計".to_owned())
    } else if strutil::str_eq(key, "success") {
        Some("成功".to_owned())
    } else if strutil::str_eq(key, "failed") {
        Some("失敗".to_owned())
    } else if strutil::str_eq(key, "current-round") {
        Some("現在のラウンド".to_owned())
    } else {
        None
    }
}

pub open spec fn spec_ja_2(key: Seq<char>) -> Option<Seq<char>> {
    if key == "elapsed-time"@ {
        Some("経過時間"@)
    } else if key == "send-log"@ {
        Some("送信ログ"@)
    } else if key == "clear"@ {
        Some("クリア"@)
    } else if key == "export-log"@ {
        Some("ログをエクスポート"@)
    } else if key == "save-config"@ {
        Some("設定を保存"@)
    } else if key == "load-config"@ {
        Some("設定を読み込み"@)
    } else if key == "test-connection"@ {
        Some("接続テスト"@)
    } else if key == "start-send"@ {
        Some("送信開始"@)
    } else if key == "stop-send"@ {
        Some("送信停止"@)
    } else if key == "language"@ {
        Some("言語"@)
    } else if key == "status-ready"@ {
        Some("準備完了"@)
    } else if key == "status-preparing"@ {
        Some("準備中..."@)
    } else if key == "status-sending"@ {
        Some("送信中..."@)
    } else if key == "status-stopped"@ {
        Some("停止"@)
    } else if key == "status-completed"@ {
        Some("完了"@)
    } else if key == "error-title"@ {
        Some("エラー"@)
    } else if key == "error-no-smtp-server"@ {
        Some("SMTPサーバーアドレスを入力してください"@)
    } else if key == "error-no-sender"@ {
        Some("送信者アドレスを入力してください"@)
    } else if key == "error-no-recipient"@ {
        Some("受信者アドレスを入力してください"@)
    } else if key == "error-no-eml-dir"@ {
        Some("EMLディレクトリを選択してください"@)
    } else if key == "error-no-attachment"@ {
        Some("添付ファイルを選択してください"@)
    } else if key == "error-no-attachment-dir"@ {
        Some("添付ディレクトリを選択してください"@)
    } else if key == "error-no-username"@ {
        Some("認証にはユーザー名が必要です"@)
    } else if key == "error-no-password"@ {
        Some("認証にはパスワードが必要です"@)
    } else {
        None
    }
}

fn ja_2(key: &str) -> (r: Option<String>)
    ensures
        match (&r, spec_ja_2(key@)) {
            (Some(a), Some(b)) => a@ == b,
            (None, None) => true,
            _ => false,
        },
{
    if strutil::str_eq(key, "elapsed-time") {
        Some("経過時間".to_owned())
    } else if strutil::str_eq(key, "send-log") {
        Some("送信ログ".to_owned())
    } else if strutil::str_eq(key, "clear") {
        Some("クリア".to_owned())
    } else if strutil::str_eq(key, "export-log") {
        Some("ログをエクスポート".to_owned())
    } else if strutil::str_eq(key, "save-config") {
        Some("設定を保存".to_owned())
    } else if strutil::str_eq(key, "load-config") {
        Some("設定を読み込み".to_owned())
    } else if strutil::str_eq(key, "test-connection") {
        Some("接続テスト".to_owned())
    } else if strutil::str_eq(key, "start-send") {
        Some("送信開始".to_owned())
    } else if strutil::str_eq(key, "stop-send") {
        Some("送信停止".to_owned())
    } else if strutil::str_eq(key, "language") {
        Some("言語".to_owned())
    } else if strutil::str_eq(key, "status-ready") {
        Some("準備完了".to_owned())
    } else if strutil::str_eq(key, "status-preparing") {
        Some("準備中...".to_owned())
    } else if strutil::str_eq(key, "status-sending") {
        Some("送信中...".to_owned())
    } else if strutil::str_eq(key, "status-stopped") {
        Some("停止".to_owned())
    } else if strutil::str_eq(key, "status-completed") {
        Some("完了".to_owned())
    } else if strutil::str_eq(key, "error-title") {
        Some("エラー".to_owned())
    } else if strutil::str_eq(key, "error-no-smtp-server") {
        Some("SMTPサーバーアドレスを入力してください".to_owned())
    } else if strutil::str_eq(key, "error-no-sender") {
        Some("送信者アドレスを入力してください".to_owned())
    } else if strutil::str_eq(key, "error-no-recipient") {
        Some("受信者アドレスを入力してください".to_owned())
    } else if strutil::str_eq(key, "error-no-eml-dir") {
        Some("EMLディレクトリを選択してください".to_owned())
    } else if strutil::str_eq(key, "error-no-attachment") {
        Some("添付ファイルを選択してください".to_owned())
    } else if strutil::str_eq(key, "error-no-attachment-dir") {
        Some("添付ディレクトリを選択してください".to_owned())
    } else if strutil::str_eq(key, "error-no-username") {
        Some("認証にはユーザー名が必要です".to_owned())
    } else if strutil::str_eq(key, "error-no-password") {
        Some("認証にはパスワードが必要です".to_owned())
    } else {
        None
    }
}

/// The English table entry for a key, if one exists.
pub open spec fn spec_en(key: Seq<char>) -> Option<Seq<char>> {
    match spec_en_0(key) {
        Some(v) => Some(v),
        None => match spec_en_1(key) {
            Some(v) => Some(v),
            None => match spec_en_2(key) {
                Some(v) => Some(v),
                None => None,
            },
        },
    }
}

fn en_lookup(key: &str) -> (r: Option<String>)
    ensures
        match (&r, spec_en(key@)) {
            (Some(a), Some(b)) => a@ == b,
            (None, None) => true,
            _ => false,
        },
{
    match en_0(key) {
        Some(v) => Some(v),
        None => match en_1(key) {
            Some(v) => Some(v),
            None => match en_2(key) {
                Some(v) => Some(v),
                None => None,
            },
        },
    }
}

/// The SimplifiedChinese table entry for a key, if one exists.
pub open spec fn spec_zh_cn(key: Seq<char>) -> Option<Seq<char>> {
    match spec_zh_cn_0(key) {
        Some(v) => Some(v),
        None => match spec_zh_cn_1(key) {
            Some(v) => Some(v),
            None => match spec_zh_cn_2(key) {
                Some(v) => Some(v),
                None => None,
            },
        },
    }
}

fn zh_cn_lookup(key: &str) -> (r: Option<String>)
    ensures
        match (&r, spec_zh_cn(key@)) {
            (Some(a), Some(b)) => a@ == b,
            (None, None) => true,
            _ => false,
        },
{
    match zh_cn_0(key) {
        Some(v) => Some(v),
        None => match zh_cn_1(key) {
            Some(v) => Some(v),
            None => match zh_cn_2(key) {
                Some(v) => Some(v),
                None => None,
            },
        },
    }
}

/// The TraditionalChinese table entry for a key, if one exists.
pub open spec fn spec_zh_tw(key: Seq<char>) -> Option<Seq<char>> {
    match spec_zh_tw_0(key) {
        Some(v) => Some(v),
        None => match spec_zh_tw_1(key) {
            Some(v) => Some(v),
            None => match spec_zh_tw_2(key) {
                Some(v) => Some(v),
                None => None,
            },
        },
    }
}

fn zh_tw_lookup(key: &str) -> (r: Option<String>)
    ensures
        match (&r, spec_zh_tw(key@)) {
            (Some(a), Some(b)) => a@ == b,
            (None, None) => true,
            _ => false,
        },
{
    match zh_tw_0(key) {
        Some(v) => Some(v),
        None => match zh_tw_1(key) {
            Some(v) => Some(v),
            None => match zh_tw_2(key) {
                Some(v) => Some(v),
                None => None,
            },
        },
    }
}

/// The Japanese table entry for a key, if one exists.
pub open spec fn spec_ja(key: Seq<char>) -> Option<Seq<char>> {
    match spec_ja_0(key) {
        Some(v) => Some(v),
        None => match spec_ja_1(key) {
            Some(v) => Some(v),
            None => match spec_ja_2(key) {
                Some(v) => Some(v),
                None => None,
            },
        },
    }
}

fn ja_lookup(key: &str) -> (r: Option<String>)
    ensures
        match (&r, spec_ja(key@)) {
            (Some(a), Some(b)) => a@ == b,
            (None, None) => true,
            _ => false,
        },
{
    match ja_0(key) {
        Some(v) => Some(v),
        None => match ja_1(key) {
            Some(v) => Some(v),
            None => match ja_2(key) {
                Some(v) => Some(v),
                None => None,
            },
        },
    }
}

/// The table entry for a key in the given language.
pub open spec fn spec_table(lang: Language, key: Seq<char>) -> Option<Seq<char>> {
    match lang {
        Language::English => spec_en(key),
        Language::SimplifiedChinese => spec_zh_cn(key),
        Language::TraditionalChinese => spec_zh_tw(key),
        Language::Japanese => spec_ja(key),
    }
}

/// What `t` returns: the key's entry in the chosen language, the English
/// entry when that language lacks it, and the key itself when even English
/// does.
pub open spec fn spec_t(lang: Language, key: Seq<char>) -> Seq<char> {
    match spec_table(lang, key) {
        Some(v) => v,
        None => match spec_en(key) {
            Some(v) => v,
            None => key,
        },
    }
}

/// Translates a key into the given language, falling back to English and
/// then to the key itself.
pub fn t(lang: Language, key: &str) -> (r: String)
    ensures
        r@ == spec_t(lang, key@),
{
    let hit = match lang {
        Language::English => en_lookup(key),
        Language::SimplifiedChinese => zh_cn_lookup(key),
        Language::TraditionalChinese => zh_tw_lookup(key),
        Language::Japanese => ja_lookup(key),
    };
    match hit {
        Some(v) => v,
        None => match en_lookup(key) {
            Some(v) => v,
            None => key.to_owned(),
        },
    }
}

} // verus!
