use base64::Engine;
use cxtools::image::{
    image_content_result, image_mime_for_extension, image_mime_type, image_read_result,
    unsupported_image_result,
};
use cxtools::model::{
    text_result, ContentBlock, CxTools, ShellCommandParams, StructuredOutput, SubagentParams,
    ToolResult,
};
use cxtools::patch::{apply_patch_result, combine_streams, cwd_error_result, patch_report};
use cxtools::shell::{
    shell_exec_request, shell_report_text, shell_result, workdir_error_result, ExecOutcome,
};
use cxtools::subagent::{
    last_message_file_name, last_message_tag, subagent_failure_result,
    subagent_launch_failure_result, subagent_request, subagent_result, subagent_success_result,
    SubagentRun,
};
use cxtools::text::{append_decimal, i32_to_decimal};

fn text_of(result: &ToolResult) -> String {
    assert_eq!(result.content.len(), 1);
    match &result.content[0] {
        ContentBlock::Text(t) => t.clone(),
        other => panic!("expected text content, got {other:?}"),
    }
}

fn finished(output: &str, exit_code: i32, timed_out: bool) -> ExecOutcome {
    ExecOutcome::Finished { aggregated_output: output.to_string(), exit_code, timed_out }
}

#[test]
fn shell_success_reports_output() {
    let result = shell_result(finished("hello\n", 0, false));
    assert_eq!(result.is_error, Some(false));
    assert!(text_of(&result).contains("hello"));
    assert_eq!(text_of(&result), "hello\n");
    match result.structured_content {
        Some(StructuredOutput::Shell(o)) => {
            assert_eq!(o.exit_code, 0);
            assert!(!o.timed_out);
            assert!(o.output.contains("hello"));
        }
        other => panic!("expected shell output, got {other:?}"),
    }
}

#[test]
fn shell_nonzero_exit_reports_code() {
    let result = shell_result(finished("", 3, false));
    assert_eq!(result.is_error, Some(true));
    assert!(text_of(&result).contains("exit code 3"));
    assert_eq!(text_of(&result), "\n(exit code 3)");
    match result.structured_content {
        Some(StructuredOutput::Shell(o)) => {
            assert_eq!(o.exit_code, 3);
            assert_eq!(o.output, "");
        }
        other => panic!("expected shell output, got {other:?}"),
    }
}

#[test]
fn shell_timeout_is_marked() {
    let result = shell_result(finished("partial", 0, true));
    assert_eq!(result.is_error, Some(true));
    assert!(text_of(&result).contains("timed out"));
    assert_eq!(text_of(&result), "command timed out\npartial");
    let result = shell_result(finished("partial", -9, true));
    assert_eq!(text_of(&result), "command timed out\npartial\n(exit code -9)");
    match result.structured_content {
        Some(StructuredOutput::Shell(o)) => {
            assert!(o.timed_out);
            assert_eq!(o.output, "partial");
        }
        other => panic!("expected shell output, got {other:?}"),
    }
}

#[test]
fn shell_exec_failure_reports_error() {
    let result =
        shell_result(ExecOutcome::Failed { message: "no such file".to_string(), timed_out: false });
    assert_eq!(result.is_error, Some(true));
    assert_eq!(text_of(&result), "exec error: no such file");
    match result.structured_content {
        Some(StructuredOutput::Shell(o)) => {
            assert_eq!(o.exit_code, -1);
            assert!(!o.timed_out);
            assert_eq!(o.output, "no such file");
        }
        other => panic!("expected shell output, got {other:?}"),
    }
}

#[test]
fn shell_runner_timeout_error_is_marked() {
    let result =
        shell_result(ExecOutcome::Failed { message: "command timed out".to_string(), timed_out: true });
    assert_eq!(result.is_error, Some(true));
    assert!(text_of(&result).contains("timed out"));
    match result.structured_content {
        Some(StructuredOutput::Shell(o)) => {
            assert_eq!(o.exit_code, -1);
            assert!(o.timed_out);
        }
        other => panic!("expected shell output, got {other:?}"),
    }
}

#[test]
fn shell_report_text_extremes() {
    assert_eq!(shell_report_text("x", i32::MIN, false), "x\n(exit code -2147483648)");
    assert_eq!(shell_report_text("x", i32::MAX, false), "x\n(exit code 2147483647)");
    assert_eq!(shell_report_text("", 0, false), "");
}

#[test]
fn shell_request_runs_bash() {
    let req = shell_exec_request(ShellCommandParams {
        command: "echo hello".to_string(),
        workdir: Some("/tmp".to_string()),
        timeout_ms: Some(200),
    });
    assert_eq!(req.argv, vec!["bash".to_string(), "-lc".to_string(), "echo hello".to_string()]);
    assert_eq!(req.workdir, Some("/tmp".to_string()));
    assert_eq!(req.timeout_ms, Some(200));
    let req = shell_exec_request(ShellCommandParams {
        command: "sleep 5".to_string(),
        workdir: None,
        timeout_ms: None,
    });
    assert_eq!(req.workdir, None);
    assert_eq!(req.timeout_ms, None);
}

#[test]
fn directory_errors() {
    let result = workdir_error_result("path is not absolute");
    assert_eq!(result.is_error, Some(true));
    assert_eq!(text_of(&result), "invalid workdir: path is not absolute");
    match &result.structured_content {
        Some(StructuredOutput::Shell(o)) => {
            assert_eq!(o.output, "path is not absolute");
            assert_eq!(o.exit_code, -1);
            assert!(!o.timed_out);
        }
        other => panic!("expected shell output, got {other:?}"),
    }
    let result = cwd_error_result("path is not absolute");
    assert_eq!(result.is_error, Some(true));
    assert_eq!(text_of(&result), "invalid cwd: path is not absolute");
    match &result.structured_content {
        Some(StructuredOutput::ApplyPatch(o)) => {
            assert!(!o.success);
            assert_eq!(o.output, "invalid cwd: path is not absolute");
        }
        other => panic!("expected patch output, got {other:?}"),
    }
}

#[test]
fn plain_text_results() {
    let ok = text_result("fine".to_string(), false);
    assert_eq!(ok.is_error, Some(false));
    assert!(ok.structured_content.is_none());
    assert_eq!(text_of(&ok), "fine");
    let bad = text_result("broken".to_string(), true);
    assert_eq!(bad.is_error, Some(true));
}

#[test]
fn combine_streams_skips_empty_ones() {
    assert_eq!(combine_streams("", ""), "");
    assert_eq!(combine_streams("out", ""), "out");
    assert_eq!(combine_streams("", "err"), "err");
    assert_eq!(combine_streams("out", "err"), "out\nerr");
}

#[test]
fn patch_success_and_failure() {
    let result = patch_report("Success. Updated the following files:\nA hello.txt\n", "", true);
    assert_eq!(result.is_error, Some(false));
    assert_eq!(text_of(&result), "Success. Updated the following files:\nA hello.txt\n");
    match &result.structured_content {
        Some(StructuredOutput::ApplyPatch(o)) => {
            assert!(o.success);
            assert_eq!(o.output, text_of(&result));
        }
        other => panic!("expected patch output, got {other:?}"),
    }
    let result = patch_report("", "Invalid patch", false);
    assert_eq!(result.is_error, Some(true));
    match &result.structured_content {
        Some(StructuredOutput::ApplyPatch(o)) => assert!(!o.success),
        other => panic!("expected patch output, got {other:?}"),
    }
}

#[test]
fn patch_streams_decode_lossily() {
    let result = apply_patch_result(b"ok", &[0x66, 0xFF, 0x67], true);
    assert_eq!(text_of(&result), "ok\nf\u{FFFD}g");
    let result = apply_patch_result(b"", b"", false);
    assert_eq!(text_of(&result), "");
    assert_eq!(result.is_error, Some(true));
}

#[test]
fn mime_from_extension() {
    let mime = |p: &str| image_mime_type(p);
    assert_eq!(mime("/tmp/dot.png"), Some("image/png".to_string()));
    assert_eq!(mime("/tmp/photo.JPG"), Some("image/jpeg".to_string()));
    assert_eq!(mime("photo.jpeg"), Some("image/jpeg".to_string()));
    assert_eq!(mime("anim.GiF"), Some("image/gif".to_string()));
    assert_eq!(mime("pic.webp"), Some("image/webp".to_string()));
    assert_eq!(mime("notes.txt"), None);
    assert_eq!(mime("noextension"), None);
    assert_eq!(mime(".png"), None);
    assert_eq!(mime("archive.tar.png"), Some("image/png".to_string()));
    assert_eq!(image_mime_for_extension(&Some("PNG".to_string())), Some("image/png".to_string()));
    assert_eq!(image_mime_for_extension(&Some("pngx".to_string())), None);
    assert_eq!(image_mime_for_extension(&None), None);
}

#[test]
fn image_results() {
    let png: Vec<u8> = vec![
        0x89, 0x50, 0x4E, 0x47, 0x0D, 0x0A, 0x1A, 0x0A, 0x00, 0x00, 0x00, 0x0D, 0x49, 0x48, 0x44,
        0x52, 0x00, 0x00, 0x00, 0x01, 0x00, 0x00, 0x00, 0x01, 0x08, 0x06, 0x00, 0x00, 0x00, 0x1F,
        0x15, 0xC4, 0x89, 0x00, 0x00, 0x00, 0x0D, 0x49, 0x44, 0x41, 0x54, 0x78, 0x9C, 0x63, 0x64,
        0x60, 0xF8, 0x5F, 0x0F, 0x00, 0x02, 0x87, 0x01, 0x80, 0xEB, 0x47, 0xBA, 0x92, 0x00, 0x00,
        0x00, 0x00, 0x49, 0x45, 0x4E, 0x44, 0xAE, 0x42, 0x60, 0x82,
    ];
    let result = image_read_result(Ok(png), "image/png".to_string());
    assert_eq!(result.is_error, Some(false));
    assert!(result.structured_content.is_none());
    match &result.content[0] {
        ContentBlock::Image { data, mime_type } => {
            assert_eq!(mime_type, "image/png");
            assert_eq!(
                data,
                "iVBORw0KGgoAAAANSUhEUgAAAAEAAAABCAYAAAAfFcSJAAAADUlEQVR4nGNkYPhfDwAChwGA60e6kgAAAABJRU5ErkJggg=="
            );
        }
        other => panic!("expected image content, got {other:?}"),
    }
    let result = image_read_result(Ok(b"hello".to_vec()), "image/gif".to_string());
    match &result.content[0] {
        ContentBlock::Image { data, .. } => assert_eq!(data, "aGVsbG8="),
        other => panic!("expected image content, got {other:?}"),
    }
    let result = image_read_result(Err("No such file".to_string()), "image/png".to_string());
    assert_eq!(result.is_error, Some(true));
    assert_eq!(text_of(&result), "failed to read image: No such file");
    let result = unsupported_image_result("notes.txt");
    assert_eq!(result.is_error, Some(true));
    assert_eq!(text_of(&result), "unsupported image extension: notes.txt");
    let result = image_content_result("AAAA".to_string(), "image/webp".to_string());
    assert_eq!(result.content.len(), 1);
    assert_eq!(result.is_error, Some(false));
}

#[test]
fn last_message_file() {
    assert_eq!(last_message_tag(5, 3), 6);
    assert_eq!(last_message_tag(1, (1u128 << 64) + 1), 0);
    assert_eq!(last_message_file_name(0), "cxtools-last-message-0.txt");
    assert_eq!(last_message_file_name(u64::MAX), "cxtools-last-message-18446744073709551615.txt");
}

#[test]
fn subagent_request_arguments() {
    let params = SubagentParams { prompt: "do it".to_string(), cwd: None };
    let req = subagent_request(&params, "/tmp/out.txt");
    assert_eq!(req.program, "codex");
    assert_eq!(
        req.args,
        vec!["exec", "--ephemeral", "--skip-git-repo-check", "--output-last-message", "/tmp/out.txt", "do it"]
    );
    let params = SubagentParams { prompt: "do it".to_string(), cwd: Some("/work".to_string()) };
    let req = subagent_request(&params, "/tmp/out.txt");
    assert_eq!(
        req.args,
        vec![
            "exec", "--ephemeral", "--skip-git-repo-check", "--output-last-message", "/tmp/out.txt",
            "-C", "/work", "do it"
        ]
    );
}

#[test]
fn subagent_results() {
    let run = |success: bool, code: Option<i32>| SubagentRun::Exited {
        success,
        code,
        stdout: b"raw stdout".to_vec(),
        stderr: b"raw stderr".to_vec(),
    };
    let result = subagent_result(run(true, Some(0)), "final message".to_string());
    assert_eq!(result.is_error, Some(false));
    assert_eq!(text_of(&result), "final message");
    let result = subagent_result(run(true, Some(0)), String::new());
    assert_eq!(text_of(&result), "raw stdout");
    match &result.structured_content {
        Some(StructuredOutput::Subagent(o)) => {
            assert!(o.success);
            assert_eq!(o.output, "raw stdout");
        }
        other => panic!("expected subagent output, got {other:?}"),
    }
    let result = subagent_result(run(false, Some(2)), "ignored".to_string());
    assert_eq!(result.is_error, Some(true));
    assert_eq!(text_of(&result), "codex exec failed (exit code Some(2)):\nraw stderr");
    let result = subagent_result(run(false, None), String::new());
    assert_eq!(text_of(&result), "codex exec failed (exit code None):\nraw stderr");
    let result = subagent_result(SubagentRun::LaunchFailed { message: "not found".to_string() }, String::new());
    assert_eq!(result.is_error, Some(true));
    assert_eq!(text_of(&result), "failed to launch codex: not found");
    match &result.structured_content {
        Some(StructuredOutput::Subagent(o)) => {
            assert!(!o.success);
            assert_eq!(o.output, "failed to launch codex: not found");
        }
        other => panic!("expected subagent output, got {other:?}"),
    }
    assert_eq!(text_of(&subagent_success_result("x".to_string())), "x");
    assert_eq!(
        text_of(&subagent_failure_result(Some(-1), "e")),
        "codex exec failed (exit code Some(-1)):\ne"
    );
    assert_eq!(text_of(&subagent_launch_failure_result("m")), "failed to launch codex: m");
}

#[test]
fn server_describes_itself() {
    let server = CxTools::new();
    let info = server.server_info("0.1.0");
    assert_eq!(info.name, "cxtools");
    assert_eq!(info.version, "0.1.0");
    assert!(info.tools_enabled);
    assert_eq!(
        info.instructions.as_deref(),
        Some("Codex tools served over MCP: shell_command and apply_patch run the actual codex-rs implementations in-process; subagent delegates to `codex exec`.")
    );
    let _ = CxTools::default();
}

#[test]
fn decimal_rendering() {
    assert_eq!(i32_to_decimal(0), "0");
    assert_eq!(i32_to_decimal(7), "7");
    assert_eq!(i32_to_decimal(10), "10");
    assert_eq!(i32_to_decimal(-1), "-1");
    assert_eq!(i32_to_decimal(i32::MAX), "2147483647");
    assert_eq!(i32_to_decimal(i32::MIN), "-2147483648");
    let mut s = String::from("n=");
    append_decimal(&mut s, 1000);
    assert_eq!(s, "n=1000");
}

#[test]
fn distinct_exit_codes_distinct_texts() {
    let a = shell_report_text("out", 12, false);
    let b = shell_report_text("out", 21, false);
    let c = shell_report_text("out", -12, false);
    assert_ne!(a, b);
    assert_ne!(a, c);
    assert_eq!(a, "out\n(exit code 12)");
}

#[test]
fn image_data_decodes_to_file_bytes() {
    for bytes in [vec![], vec![0u8], vec![0xFF, 0x10], vec![1, 2, 3], vec![9, 8, 7, 6, 5]] {
        let result = image_read_result(Ok(bytes.clone()), "image/png".to_string());
        assert!(result.structured_content.is_none());
        match &result.content[0] {
            ContentBlock::Image { data, .. } => {
                let decoded = base64::engine::general_purpose::STANDARD.decode(data).unwrap();
                assert_eq!(decoded, bytes);
            }
            other => panic!("expected image content, got {other:?}"),
        }
    }
}

#[test]
fn valid_utf8_streams_decode_exactly() {
    let result = apply_patch_result("héllo".as_bytes(), "wörld".as_bytes(), true);
    assert_eq!(text_of(&result), "héllo\nwörld");
    let result = subagent_result(
        SubagentRun::Exited {
            success: false,
            code: Some(1),
            stdout: Vec::new(),
            stderr: "ünïcode".as_bytes().to_vec(),
        },
        String::new(),
    );
    assert_eq!(text_of(&result), "codex exec failed (exit code Some(1)):\nünïcode");
}
