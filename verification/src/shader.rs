use vstd::prelude::*;

verus! {

/// A linked shader program, known by its OpenGL object name.
pub struct Shader {
    pub id: u32,
}

/// The value that OpenGL reports as a compile or link status when the step succeeded.
pub const GL_TRUE: i32 = 1;

/// The stage whose status is checked after a shader program is built.
#[derive(Debug, Clone, Copy, PartialEq, Eq, Structural)]
pub enum CompilationType {
    Vertex,
    Fragment,
    Program,
}

/// Characters taken one byte each, as the messages here hold ASCII only.
pub open spec fn ascii_bytes(s: Seq<char>) -> Seq<u8> {
    s.map_values(|c: char| c as u8)
}

/// The name under which a stage appears in a failure message.
pub open spec fn stage_name(kind: CompilationType) -> Seq<char> {
    match kind {
        CompilationType::Vertex => "Vertex"@,
        CompilationType::Fragment => "Fragment"@,
        CompilationType::Program => "Program"@,
    }
}

/// What failed: a shader compiles, a program links.
pub open spec fn failure_word(kind: CompilationType) -> Seq<char> {
    match kind {
        CompilationType::Vertex | CompilationType::Fragment => "COMPILATION_FAILED"@,
        CompilationType::Program => "LINKING_FAILED"@,
    }
}

/// The part of an info-log buffer that is printed: all of it but the last
/// byte, which is kept for OpenGL's terminating zero.
pub open spec fn log_text(info_log: Seq<u8>) -> Seq<u8> {
    if info_log.len() == 0 {
        info_log
    } else {
        info_log.drop_last()
    }
}

/// The message printed when the step `kind` failed, followed by the info log.
pub open spec fn failure_message(kind: CompilationType, info_log: Seq<u8>) -> Seq<u8> {
    ascii_bytes("ERROR::SHADER::"@ + stage_name(kind) + "::"@ + failure_word(kind) + "\n"@)
        + log_text(info_log)
}

/// The message printed when a program built without the shader class fails
/// to link, followed by the info log.
pub open spec fn plain_link_failure_message(info_log: Seq<u8>) -> Seq<u8> {
    ascii_bytes("ERROR::SHADER::LINKING_FAILED\n"@) + log_text(info_log)
}

/// A failure message is a header fixed by the step alone, followed by the
/// whole info-log buffer but its last byte, whatever the buffer's length and
/// whatever the step.
pub proof fn lemma_failure_message_keeps_log(kind: CompilationType, info_log: Seq<u8>)
    requires
        info_log.len() > 0,
    ensures
        failure_message(kind, info_log) == failure_message(kind, Seq::empty()) + info_log.drop_last(),
        failure_message(kind, Seq::empty()) == ascii_bytes(
            "ERROR::SHADER::"@ + stage_name(kind) + "::"@ + failure_word(kind) + "\n"@,
        ),
        plain_link_failure_message(info_log) == plain_link_failure_message(Seq::empty())
            + info_log.drop_last(),
        plain_link_failure_message(Seq::empty()) == ascii_bytes("ERROR::SHADER::LINKING_FAILED\n"@),
{
    let e = Seq::<u8>::empty();
    assert(ascii_bytes("ERROR::SHADER::"@ + stage_name(kind) + "::"@ + failure_word(kind) + "\n"@)
        + e =~= ascii_bytes(
        "ERROR::SHADER::"@ + stage_name(kind) + "::"@ + failure_word(kind) + "\n"@,
    ));
    assert(ascii_bytes("ERROR::SHADER::LINKING_FAILED\n"@) + e =~= ascii_bytes(
        "ERROR::SHADER::LINKING_FAILED\n"@,
    ));
}

/// Appends the characters of `s`, one byte each.
fn push_ascii(out: &mut Vec<u8>, s: &str)
    ensures
        final(out)@ == old(out)@ + ascii_bytes(s@),
{
    let n = s.unicode_len();
    let ghost start = out@;
    let mut i: usize = 0;
    while i < n
        invariant
            n == s@.len(),
            i <= n,
            out@ == start + ascii_bytes(s@.subrange(0, i as int)),
        decreases n - i,
    {
        let c = s.get_char(i);
        out.push(c as u8);
        i = i + 1;
        assert(ascii_bytes(s@.subrange(0, i as int)) =~= ascii_bytes(s@.subrange(0, i - 1)).push(
            c as u8,
        ));
    }
    assert(s@.subrange(0, n as int) =~= s@);
}

/// Appends the printed part of an info-log buffer.
fn push_log_text(out: &mut Vec<u8>, info_log: &[u8])
    ensures
        final(out)@ == old(out)@ + log_text(info_log@),
{
    let n = if info_log.len() == 0 { 0 } else { info_log.len() - 1 };
    let ghost start = out@;
    let mut i: usize = 0;
    while i < n
        invariant
            n == log_text(info_log@).len(),
            n <= info_log@.len(),
            i <= n,
            out@ == start + info_log@.subrange(0, i as int),
        decreases n - i,
    {
        out.push(info_log[i]);
        i = i + 1;
        assert(info_log@.subrange(0, i as int) =~= info_log@.subrange(0, i - 1).push(
            info_log@[i - 1],
        ));
    }
    assert(info_log@.subrange(0, n as int) =~= log_text(info_log@));
}

/// Whether a compile or link status reports success.
pub fn build_succeeded(status: i32) -> (ok: bool)
    ensures
        ok == (status == GL_TRUE),
{
    status == GL_TRUE
}

/// The message for a failed step `kind`, followed by the printed part of its
/// info-log buffer.
pub fn failure_report(kind: CompilationType, info_log: &[u8]) -> (msg: Vec<u8>)
    ensures
        msg@ == failure_message(kind, info_log@),
        info_log@.len() > 0 ==> msg@ == failure_message(kind, Seq::empty())
            + info_log@.drop_last(),
{
    let mut msg: Vec<u8> = Vec::new();
    push_ascii(&mut msg, "ERROR::SHADER::");
    match kind {
        CompilationType::Vertex => push_ascii(&mut msg, "Vertex"),
        CompilationType::Fragment => push_ascii(&mut msg, "Fragment"),
        CompilationType::Program => push_ascii(&mut msg, "Program"),
    }
    push_ascii(&mut msg, "::");
    match kind {
        CompilationType::Vertex | CompilationType::Fragment => push_ascii(
            &mut msg,
            "COMPILATION_FAILED",
        ),
        CompilationType::Program => push_ascii(&mut msg, "LINKING_FAILED"),
    }
    push_ascii(&mut msg, "\n");
    push_log_text(&mut msg, info_log);
    proof {
        if info_log@.len() > 0 {
            lemma_failure_message_keeps_log(kind, info_log@);
        }
        let pre = "ERROR::SHADER::"@ + stage_name(kind) + "::"@ + failure_word(kind) + "\n"@;
        assert(ascii_bytes(pre) =~= ascii_bytes("ERROR::SHADER::"@) + ascii_bytes(stage_name(kind))
            + ascii_bytes("::"@) + ascii_bytes(failure_word(kind)) + ascii_bytes("\n"@));
    }
    msg
}

/// Checks the status that OpenGL reported after compiling a shader or linking
/// a program: `None` when it succeeded, else the message to print.
pub fn check_build_status(kind: CompilationType, status: i32, info_log: &[u8]) -> (r: Option<
    Vec<u8>,
>)
    ensures
        r is None <==> status == GL_TRUE,
        r matches Some(msg) ==> msg@ == failure_message(kind, info_log@),
        r matches Some(msg) ==> info_log@.len() > 0 ==> msg@ == failure_message(
            kind,
            Seq::empty(),
        ) + info_log@.drop_last(),
{
    if build_succeeded(status) {
        None
    } else {
        Some(failure_report(kind, info_log))
    }
}

/// Checks the link status of a program built without the shader class:
/// `None` when linking succeeded, else the message to print.
pub fn check_plain_link_status(status: i32, info_log: &[u8]) -> (r: Option<Vec<u8>>)
    ensures
        r is None <==> status == GL_TRUE,
        r matches Some(msg) ==> msg@ == plain_link_failure_message(info_log@),
        r matches Some(msg) ==> info_log@.len() > 0 ==> msg@ == plain_link_failure_message(
            Seq::empty(),
        ) + info_log@.drop_last(),
{
    if build_succeeded(status) {
        None
    } else {
        let mut msg: Vec<u8> = Vec::new();
        push_ascii(&mut msg, "ERROR::SHADER::LINKING_FAILED\n");
        push_log_text(&mut msg, info_log);
        proof {
            if info_log@.len() > 0 {
                lemma_failure_message_keeps_log(CompilationType::Program, info_log@);
            }
        }
        Some(msg)
    }
}

} // verus!
