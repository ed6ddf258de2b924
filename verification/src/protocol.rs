use vstd::prelude::*;

use crate::error::{NikonError, SdkOperation};
use crate::params::RawDevelopment;
use crate::render::RenderRequest;

verus! {

/// Library version the SDK is opened with.
pub const SDK_LIBRARY_VERSION: u64 = 0x01000000;

/// Virtual-memory size (in megabytes) the SDK is opened with.
pub const SDK_VM_MEMORY_SIZE: u64 = 1024;

/// Size of the SDK's fixed path fields.
pub const SDK_PATH_FIELD_SIZE: usize = 1024;

/// Colour mode for development.
#[derive(Debug, Clone, Copy, PartialEq, Eq, Structural)]
pub enum DevelopColorMode {
    AppliedInCamera,
}

/// Raw parameter set to develop with.
#[derive(Debug, Clone, Copy, PartialEq, Eq, Structural)]
pub enum ParameterSet {
    AsShot,
}

/// Colour process to develop with.
#[derive(Debug, Clone, Copy, PartialEq, Eq, Structural)]
pub enum ColorProcess {
    AppliedInCamera,
}

/// Rendering intent of the output profile.
#[derive(Debug, Clone, Copy, PartialEq, Eq, Structural)]
pub enum RenderingIntent {
    Perceptual,
}

/// A call for the driver to make on the SDK, with its arguments.
#[derive(Debug, PartialEq, Eq)]
pub enum SdkCall {
    OpenLibrary { version: u64, vm_memory_size: u64, vm_file_info: Vec<u8> },
    SetDevelopColorMode { mode: DevelopColorMode },
    /// `file_name` is a NUL-terminated UTF-8 path.
    OpenSession { file_name: Vec<u8> },
    ApplyRawParameterSet { session_id: u64, parameter_set: ParameterSet },
    SetColorProcess { session_id: u64, process: ColorProcess },
    SetOutputProfile { session_id: u64, rendering_intent: RenderingIntent, profile: Vec<u8> },
    CloseSession { session_id: u64 },
    CloseLibrary,
}

/// The SDK's answer to a call: its result code, and the number the call
/// reports back (the session id, for `OpenSession`).
#[derive(Debug, Clone, Copy, PartialEq, Eq, Structural)]
pub struct SdkReply {
    pub code: u64,
    pub value: u64,
}

/// An opened SDK library.
pub struct NikonLibrary {
    success_code: u64,
}

/// A session on one image, opened on a library.
pub struct NikonSession<'library> {
    library: &'library NikonLibrary,
    session_id: u64,
}

/// What the driver of a multi-call operation does next.
pub enum SdkStep<T> {
    Call(SdkCall),
    Done(Result<T, NikonError>),
}

/// A call for the driver to make on an open session, with its arguments.
#[derive(Debug, PartialEq, Eq)]
pub enum SessionQuery {
    GetRawDevelopmentInfo { session_id: u64 },
    /// `flag` is the parameter's bit in the supported-parameter mask.
    GetRawDevelopmentParam { session_id: u64, kind: RawDevelopment, flag: u64 },
    GetImageInfo { session_id: u64 },
    /// The buffer handed to the SDK holds `request.data_size` bytes.
    GetImageData { session_id: u64, image_id: u64, request: RenderRequest },
    /// Hands the Picture Control read by the previous query back to the SDK as
    /// a development setting.
    ApplyPictureControl { session_id: u64 },
}

/// What the driver of a session query does next.
pub enum QueryStep<T> {
    Query(SessionQuery),
    Done(Result<T, NikonError>),
}

/// What the driver of session opening does next. A failure after the session
/// was opened hands the session back so that it is closed.
pub enum SessionStep<'library> {
    Call(SdkCall),
    Opened(NikonSession<'library>),
    Failed { error: NikonError, opened: Option<NikonSession<'library>> },
}

/// The error of the first of the first `n` replies whose code is not
/// `success`, attributed to the operation of `plan` it answered.
pub open spec fn first_failure(plan: Seq<SdkOperation>, codes: Seq<u64>, success: u64, n: nat) -> Option<NikonError>
    decreases n,
{
    if n == 0 {
        None
    } else {
        match first_failure(plan, codes, success, (n - 1) as nat) {
            Some(e) => Some(e),
            None => if codes[n - 1] != success {
                Some(NikonError::Sdk { operation: plan[n - 1], code: codes[n - 1] })
            } else {
                None
            },
        }
    }
}

/// The calls that open the library, in order: the colour mode is set right
/// after the library opens.
pub open spec fn library_plan() -> Seq<SdkOperation> {
    seq![SdkOperation::OpenLibrary, SdkOperation::SetDevelopColorMode]
}

/// The calls that open a session, in order: the as-shot parameter set, then
/// the colour process, and the output profile last.
pub open spec fn session_plan() -> Seq<SdkOperation> {
    seq![
        SdkOperation::OpenSession,
        SdkOperation::ApplyRawParameterSet,
        SdkOperation::SetColorProcess,
        SdkOperation::SetOutputProfile,
    ]
}

/// The smaller of two numbers.
pub open spec fn lesser(a: nat, b: nat) -> nat {
    if a <= b { a } else { b }
}

/// `bytes` as a C string: with a NUL appended, unless it already holds one.
pub open spec fn c_string(bytes: Seq<u8>) -> Option<Seq<u8>> {
    if bytes.contains(0u8) { None } else { Some(bytes.push(0u8)) }
}

/// `bytes` in a field of `size` bytes, zero-filled after it.
pub open spec fn fixed_field(bytes: Seq<u8>, size: nat) -> Seq<u8> {
    bytes + Seq::new((size - bytes.len()) as nat, |i: int| 0u8)
}

/// The bytes of an ASCII text.
pub open spec fn ascii_bytes(s: Seq<char>) -> Seq<u8> {
    Seq::new(s.len(), |i: int| s[i] as u8)
}

/// Path of the SDK's virtual-memory file.
pub open spec fn vm_file_path() -> Seq<char> {
    "/tmp/nefoxide-nikon-sdk-vm.tmp"@
}

/// `bytes` with a NUL appended, or a path-encoding error when it already
/// holds a NUL.
pub fn to_c_string(bytes: &[u8]) -> (r: Result<Vec<u8>, NikonError>)
    ensures
        c_string(bytes@) is None <==> r is Err,
        r matches Err(e) ==> e == NikonError::PathEncoding,
        r matches Ok(v) ==> c_string(bytes@) == Some(v@),
{
    let len: usize = bytes.len();
    let mut out: Vec<u8> = Vec::new();
    let mut i: usize = 0;
    while i < len
        invariant
            len == bytes@.len(),
            i <= len,
            out@ == bytes@.subrange(0, i as int),
            forall|k: int| 0 <= k < i ==> bytes@[k] != 0u8,
        decreases len - i,
    {
        if bytes[i] == 0u8 {
            assert(bytes@.contains(0u8)) by { assert(bytes@[i as int] == 0u8); }
            return Err(NikonError::PathEncoding);
        }
        out.push(bytes[i]);
        i = i + 1;
        assert(out@ =~= bytes@.subrange(0, i as int));
    }
    assert(out@ =~= bytes@);
    assert(!bytes@.contains(0u8));
    out.push(0u8);
    Ok(out)
}

/// `bytes` copied into a zero-filled field of `size` bytes.
pub fn to_fixed_field(bytes: &[u8], size: usize) -> (field: Vec<u8>)
    requires
        bytes@.len() <= size,
    ensures
        field@ == fixed_field(bytes@, size as nat),
        field@.len() == size,
{
    let len: usize = bytes.len();
    let mut field: Vec<u8> = Vec::with_capacity(size);
    let mut i: usize = 0;
    while i < size
        invariant
            len == bytes@.len(),
            len <= size,
            i <= size,
            field@.len() == i,
            forall|k: int| 0 <= k < i ==> #[trigger] field@[k] == fixed_field(bytes@, size as nat)[k],
        decreases size - i,
    {
        if i < len {
            field.push(bytes[i]);
        } else {
            field.push(0u8);
        }
        i = i + 1;
    }
    assert(field@ =~= fixed_field(bytes@, size as nat));
    field
}

/// The SDK's virtual-memory file path as a NUL-terminated path field.
fn vm_file_info() -> (field: Vec<u8>)
    ensures
        field@ == fixed_field(ascii_bytes(vm_file_path()).push(0u8), SDK_PATH_FIELD_SIZE as nat),
{
    let path = "/tmp/nefoxide-nikon-sdk-vm.tmp";
    proof { reveal_strlit("/tmp/nefoxide-nikon-sdk-vm.tmp"); }
    assert(path.is_ascii());
    proof { vstd::string::is_ascii_spec_bytes(path); }
    let mut bytes = vstd::slice::slice_to_vec(path.as_bytes());
    assert(bytes@ =~= ascii_bytes(vm_file_path()));
    bytes.push(0u8);
    to_fixed_field(bytes.as_slice(), SDK_PATH_FIELD_SIZE)
}

/// No failure among the first `n` replies means each of them succeeded.
proof fn lemma_first_failure_none_means_all_success(plan: Seq<SdkOperation>, codes: Seq<u64>, success: u64, n: nat)
    requires
        n <= codes.len(),
        first_failure(plan, codes, success, n) is None,
    ensures
        forall|i: int| 0 <= i < n ==> codes[i] == success,
    decreases n,
{
    if n > 0 {
        lemma_first_failure_none_means_all_success(plan, codes, success, (n - 1) as nat);
    }
}

/// The first failure among the first `n` replies.
pub(crate) fn find_failure(plan: &Vec<SdkOperation>, replies: &Vec<SdkReply>, success: u64, n: usize) -> (r: Option<NikonError>)
    requires
        n <= plan@.len(),
        n <= replies@.len(),
    ensures
        r == first_failure(plan@, replies@.map_values(|x: SdkReply| x.code), success, n as nat),
{
    let ghost codes = replies@.map_values(|x: SdkReply| x.code);
    let mut i: usize = 0;
    while i < n
        invariant
            n <= plan@.len(),
            n <= replies@.len(),
            codes == replies@.map_values(|x: SdkReply| x.code),
            i <= n,
            first_failure(plan@, codes, success, i as nat) is None,
        decreases n - i,
    {
        assert(codes[i as int] == replies@[i as int].code);
        if replies[i].code != success {
            assert(first_failure(plan@, codes, success, (i + 1) as nat) == Some(
                NikonError::Sdk { operation: plan@[i as int], code: codes[i as int] },
            ));
            proof { lemma_failure_persists(plan@, codes, success, (i + 1) as nat, n as nat); }
            return Some(NikonError::Sdk { operation: plan[i], code: replies[i].code });
        }
        i = i + 1;
    }
    None
}

/// A failure among the first `m` replies is the failure among the first `n >= m`.
proof fn lemma_failure_persists(plan: Seq<SdkOperation>, codes: Seq<u64>, success: u64, m: nat, n: nat)
    requires
        m <= n,
        first_failure(plan, codes, success, m) is Some,
    ensures
        first_failure(plan, codes, success, n) == first_failure(plan, codes, success, m),
    decreases n - m,
{
    if m < n {
        lemma_failure_persists(plan, codes, success, m, (n - 1) as nat);
    }
}

/// The result codes of the replies.
pub open spec fn codes_of(replies: Seq<SdkReply>) -> Seq<u64> {
    replies.map_values(|x: SdkReply| x.code)
}

fn library_plan_vec() -> (v: Vec<SdkOperation>)
    ensures
        v@ == library_plan(),
{
    let v = vec![SdkOperation::OpenLibrary, SdkOperation::SetDevelopColorMode];
    assert(v@ =~= library_plan());
    v
}

fn session_plan_vec() -> (v: Vec<SdkOperation>)
    ensures
        v@ == session_plan(),
{
    let v = vec![
        SdkOperation::OpenSession,
        SdkOperation::ApplyRawParameterSet,
        SdkOperation::SetColorProcess,
        SdkOperation::SetOutputProfile,
    ];
    assert(v@ =~= session_plan());
    v
}

impl NikonLibrary {
    /// The result code by which the SDK reports success.
    pub closed spec fn success(&self) -> u64 {
        self.success_code
    }

    /// The result code by which the SDK reports success.
    pub fn success_code(&self) -> (r: u64)
        ensures
            r == self.success(),
    {
        self.success_code
    }

    /// Next step of opening the library, given the replies to the calls made
    /// so far: open the library, then set the in-camera development colour
    /// mode; the first failing call ends it with that call's error.
    pub fn open(replies: &Vec<SdkReply>, success_code: u64) -> (step: SdkStep<NikonLibrary>)
        ensures
            ({
                let failure = first_failure(library_plan(), codes_of(replies@), success_code, lesser(replies@.len(), 2));
                &&& failure matches Some(e) ==> (step matches SdkStep::Done(Err(x)) && x == e)
                &&& failure is None && replies@.len() == 0 ==> (step matches SdkStep::Call(
                    SdkCall::OpenLibrary { version, vm_memory_size, vm_file_info },
                ) && version == SDK_LIBRARY_VERSION && vm_memory_size == SDK_VM_MEMORY_SIZE
                    && vm_file_info@ == fixed_field(ascii_bytes(vm_file_path()).push(0u8), SDK_PATH_FIELD_SIZE as nat))
                &&& failure is None && replies@.len() == 1 ==> (step matches SdkStep::Call(
                    SdkCall::SetDevelopColorMode { mode },
                ) && mode == DevelopColorMode::AppliedInCamera)
                &&& failure is None && replies@.len() >= 2 ==> (step matches SdkStep::Done(Ok(library))
                    && library.success() == success_code)
            }),
    {
        let plan = library_plan_vec();
        let n: usize = if replies.len() <= 2 { replies.len() } else { 2 };
        match find_failure(&plan, replies, success_code, n) {
            Some(e) => SdkStep::Done(Err(e)),
            None => {
                if replies.len() == 0 {
                    SdkStep::Call(SdkCall::OpenLibrary {
                        version: SDK_LIBRARY_VERSION,
                        vm_memory_size: SDK_VM_MEMORY_SIZE,
                        vm_file_info: vm_file_info(),
                    })
                } else if replies.len() == 1 {
                    SdkStep::Call(SdkCall::SetDevelopColorMode { mode: DevelopColorMode::AppliedInCamera })
                } else {
                    SdkStep::Done(Ok(NikonLibrary { success_code }))
                }
            },
        }
    }

    /// The call that closes the library.
    pub fn close_call(&self) -> (call: SdkCall)
        ensures
            call == SdkCall::CloseLibrary,
    {
        SdkCall::CloseLibrary
    }

    /// The verdict on an SDK call that answered `code`: success, or the
    /// operation's error with that code.
    pub fn check(&self, operation: SdkOperation, code: u64) -> (r: Result<(), NikonError>)
        ensures
            r is Ok <==> code == self.success(),
            r matches Err(e) ==> e == (NikonError::Sdk { operation, code }),
    {
        if code == self.success_code {
            Ok(())
        } else {
            Err(NikonError::Sdk { operation, code })
        }
    }

    /// Next step of opening a session on the image at `path`, given the
    /// replies to the calls made so far: open the session, apply the as-shot
    /// raw parameter set, set the in-camera colour process, and set the output
    /// profile at `profile_path` last. A path with a NUL byte fails with a
    /// path-encoding error, the image path before any call and the profile
    /// path once its call is due; the first failing call ends it with that
    /// call's error. A failure after the session opened hands it back.
    pub fn open_session<'library>(
        &'library self,
        path: &[u8],
        profile_path: &[u8],
        replies: &Vec<SdkReply>,
    ) -> (step: SessionStep<'library>)
        requires
            c_string(profile_path@) is Some ==> profile_path@.len() < SDK_PATH_FIELD_SIZE,
        ensures
            ({
                let failure = first_failure(session_plan(), codes_of(replies@), self.success(), lesser(replies@.len(), 4));
                let opened_id = replies@[0].value;
                &&& c_string(path@) is None ==> (step matches SessionStep::Failed { error, opened }
                    && error == NikonError::PathEncoding && opened is None)
                &&& c_string(path@) is Some && failure is Some ==> (step matches SessionStep::Failed { error, opened }
                    && Some(error) == failure
                    && (opened is None <==> replies@[0].code != self.success())
                    && (opened matches Some(s) ==> s.id() == opened_id && s.library() == self))
                &&& c_string(path@) is Some && failure is None && replies@.len() == 0 ==> (
                    step matches SessionStep::Call(SdkCall::OpenSession { file_name })
                    && c_string(path@) == Some(file_name@))
                &&& c_string(path@) is Some && failure is None && replies@.len() == 1 ==> (
                    step matches SessionStep::Call(SdkCall::ApplyRawParameterSet { session_id, parameter_set })
                    && session_id == opened_id && parameter_set == ParameterSet::AsShot)
                &&& c_string(path@) is Some && failure is None && replies@.len() == 2 ==> (
                    step matches SessionStep::Call(SdkCall::SetColorProcess { session_id, process })
                    && session_id == opened_id && process == ColorProcess::AppliedInCamera)
                &&& c_string(path@) is Some && failure is None && replies@.len() >= 3 && c_string(profile_path@) is None
                    ==> (step matches SessionStep::Failed { error, opened }
                    && error == NikonError::PathEncoding
                    && (opened matches Some(s) && s.id() == opened_id && s.library() == self))
                &&& c_string(path@) is Some && failure is None && replies@.len() == 3
                    && c_string(profile_path@) is Some ==> (
                    step matches SessionStep::Call(SdkCall::SetOutputProfile { session_id, rendering_intent, profile: field })
                    && session_id == opened_id && rendering_intent == RenderingIntent::Perceptual
                    && field@ == fixed_field(c_string(profile_path@).unwrap(), SDK_PATH_FIELD_SIZE as nat))
                &&& c_string(path@) is Some && failure is None && replies@.len() >= 4 && c_string(profile_path@) is Some
                    ==> (step matches SessionStep::Opened(s) && s.id() == opened_id && s.library() == self)
            }),
    {
        let file_name = match to_c_string(path) {
            Ok(name) => name,
            Err(e) => {
                return SessionStep::Failed { error: e, opened: None };
            },
        };
        let plan = session_plan_vec();
        let n: usize = if replies.len() <= 4 { replies.len() } else { 4 };
        if let Some(e) = find_failure(&plan, replies, self.success_code, n) {
            let opened = if replies[0].code != self.success_code {
                None
            } else {
                Some(NikonSession { library: self, session_id: replies[0].value })
            };
            proof {
                if replies@[0].code != self.success() {
                    assert(first_failure(session_plan(), codes_of(replies@), self.success(), 1) is Some);
                }
            }
            return SessionStep::Failed { error: e, opened };
        }
        proof {
            lemma_first_failure_none_means_all_success(session_plan(), codes_of(replies@), self.success(), n as nat);
        }
        if replies.len() == 0 {
            return SessionStep::Call(SdkCall::OpenSession { file_name });
        }
        let session_id = replies[0].value;
        if replies.len() == 1 {
            SessionStep::Call(SdkCall::ApplyRawParameterSet { session_id, parameter_set: ParameterSet::AsShot })
        } else if replies.len() == 2 {
            SessionStep::Call(SdkCall::SetColorProcess { session_id, process: ColorProcess::AppliedInCamera })
        } else {
            match to_c_string(profile_path) {
                Err(e) => SessionStep::Failed {
                    error: e,
                    opened: Some(NikonSession { library: self, session_id }),
                },
                Ok(profile) => {
                    if replies.len() == 3 {
                        SessionStep::Call(SdkCall::SetOutputProfile {
                            session_id,
                            rendering_intent: RenderingIntent::Perceptual,
                            profile: to_fixed_field(profile.as_slice(), SDK_PATH_FIELD_SIZE),
                        })
                    } else {
                        SessionStep::Opened(NikonSession { library: self, session_id })
                    }
                },
            }
        }
    }
}

impl<'library> NikonSession<'library> {
    /// The SDK's id of this session.
    pub closed spec fn id(&self) -> u64 {
        self.session_id
    }

    /// The library the session was opened on.
    pub closed spec fn library(&self) -> &'library NikonLibrary {
        self.library
    }

    /// The SDK's id of this session.
    pub fn session_id(&self) -> (r: u64)
        ensures
            r == self.id(),
    {
        self.session_id
    }

    /// The library the session was opened on.
    pub fn opened_on(&self) -> (r: &'library NikonLibrary)
        ensures
            r == self.library(),
    {
        self.library
    }

    /// The call that closes the session when it is dropped; none for the
    /// session id 0, which names no session.
    pub fn close_call(&self) -> (call: Option<SdkCall>)
        ensures
            call is None <==> self.id() == 0,
            call matches Some(c) ==> c == (SdkCall::CloseSession { session_id: self.id() }),
    {
        if self.session_id == 0 {
            None
        } else {
            Some(SdkCall::CloseSession { session_id: self.session_id })
        }
    }
}

/// The first failure among `n` replies is the error of the first reply that
/// failed, attributed to the call it answered; there is none exactly when all
/// `n` succeeded.
pub proof fn lemma_first_failure_is_first_failing_call(plan: Seq<SdkOperation>, codes: Seq<u64>, success: u64, n: nat)
    requires
        n <= codes.len(),
        n <= plan.len(),
    ensures
        first_failure(plan, codes, success, n) is None <==> forall|i: int| 0 <= i < n ==> codes[i] == success,
        first_failure(plan, codes, success, n) matches Some(e) ==> exists|i: int| {
            &&& 0 <= i < n
            &&& codes[i] != success
            &&& e == NikonError::Sdk { operation: plan[i], code: codes[i] }
            &&& forall|j: int| 0 <= j < i ==> codes[j] == success
        },
    decreases n,
{
    if n > 0 {
        lemma_first_failure_is_first_failing_call(plan, codes, success, (n - 1) as nat);
        if first_failure(plan, codes, success, (n - 1) as nat) is None && codes[n - 1] != success {
            let i = n - 1;
            assert(forall|j: int| 0 <= j < i ==> codes[j] == success);
        }
        if first_failure(plan, codes, success, n) is None {
            assert forall|i: int| 0 <= i < n implies codes[i] == success by {
                if i < n - 1 {
                }
            }
        }
    }
}

/// The validated call order: a session is opened first, the as-shot raw
/// parameter set comes before the colour process, and the output profile is
/// set last; the development colour mode is set right after the library opens.
pub proof fn lemma_validated_call_order()
    ensures
        session_plan()[0] == SdkOperation::OpenSession,
        session_plan().index_of(SdkOperation::ApplyRawParameterSet) < session_plan().index_of(
            SdkOperation::SetColorProcess,
        ),
        session_plan().last() == SdkOperation::SetOutputProfile,
        session_plan().index_of(SdkOperation::SetOutputProfile) == session_plan().len() - 1,
        library_plan() == seq![SdkOperation::OpenLibrary, SdkOperation::SetDevelopColorMode],
{
    let p = session_plan();
    assert(p[1] == SdkOperation::ApplyRawParameterSet);
    assert(p[2] == SdkOperation::SetColorProcess);
    assert(p[3] == SdkOperation::SetOutputProfile);
    assert(p.contains(SdkOperation::ApplyRawParameterSet));
    assert(p.contains(SdkOperation::SetColorProcess));
    assert(p.contains(SdkOperation::SetOutputProfile));
}

/// A path without NUL bytes that fits a path field comes back from the field
/// as a C string: its bytes, then a NUL; the rest of the field is zero.
pub proof fn lemma_path_field_holds_c_string(path: Seq<u8>, size: nat)
    requires
        !path.contains(0u8),
        path.len() < size,
    ensures
        c_string(path) is Some,
        ({
            let field = fixed_field(c_string(path).unwrap(), size);
            &&& field.len() == size
            &&& field.subrange(0, path.len() as int) == path
            &&& field[path.len() as int] == 0u8
            &&& forall|i: int| 0 <= i < path.len() ==> field[i] != 0u8
            &&& forall|i: int| path.len() <= i < size ==> field[i] == 0u8
        }),
{
    let field = fixed_field(c_string(path).unwrap(), size);
    assert(field.subrange(0, path.len() as int) =~= path);
    assert forall|i: int| 0 <= i < path.len() implies field[i] != 0u8 by {
        assert(field[i] == path[i]);
        if path[i] == 0u8 {
            assert(path.contains(0u8));
        }
    }
}

} // verus!
