//! The sysctl command channel through which user space uploads domain images
//! and asks for domains to be updated, loaded and unloaded.
//!
//! A store on the channel carries one command. Image uploads are sessions:
//! `Start` opens one and hands out its id, `Send` appends a chunk of the
//! image, `Stop` closes the session and registers the image. The other
//! commands ask for work on running domains; that work is done by the caller,
//! which reports back whether it succeeded. Each successful command leaves a
//! response that the next read of the channel hands out.

use vstd::prelude::*;
use crate::buf::KernelSlicePtrWriter;
use crate::domain::DomainKind;
use crate::domain::registry::{already_registered, image_of, register_next, RegistryView};
use crate::error::{Error, KernelResult};

verus! {

/// A command as parsed from the bytes user space stored. Domain types are
/// given decoded: `None` stands for a raw value that names no domain type.
pub enum Command {
    /// Open an upload session for an image of `domain_size` bytes that will be
    /// registered under `elf_ident`.
    Start { domain_type: Option<DomainKind>, elf_ident: String, domain_size: usize },
    /// Append `data` (announced as `bytes` long, chunk number `data_id`) to the
    /// image of session `id`.
    Send { id: u64, bytes: usize, data_id: usize, data: Vec<u8> },
    /// Close session `id` and register its image.
    Stop { id: u64 },
    /// Replace the running domain `domain_ident` by a domain built from the
    /// image registered under `elf_ident`.
    Update { domain_ident: String, elf_ident: String, domain_type: Option<DomainKind> },
    /// Build a domain from the image `elf_ident` and run it as `domain_ident`.
    Load { elf_ident: String, domain_ident: String, domain_type: Option<DomainKind> },
    /// Stop and remove the running domain `domain_ident`.
    Unload { domain_ident: String },
    /// A well-formed command this channel does not serve.
    Unsupported,
}

/// A [`Command`] as mathematical values.
pub enum CommandView {
    Start { domain_type: Option<DomainKind>, elf_ident: Seq<char>, domain_size: usize },
    Send { id: u64, bytes: usize, data_id: usize, data: Seq<u8> },
    Stop { id: u64 },
    Update { domain_ident: Seq<char>, elf_ident: Seq<char>, domain_type: Option<DomainKind> },
    Load { elf_ident: Seq<char>, domain_ident: Seq<char>, domain_type: Option<DomainKind> },
    Unload { domain_ident: Seq<char> },
    Unsupported,
}

impl View for Command {
    type V = CommandView;

    open spec fn view(&self) -> CommandView {
        match self {
            Command::Start { domain_type, elf_ident, domain_size } => CommandView::Start {
                domain_type: *domain_type,
                elf_ident: elf_ident@,
                domain_size: *domain_size,
            },
            Command::Send { id, bytes, data_id, data } => CommandView::Send {
                id: *id,
                bytes: *bytes,
                data_id: *data_id,
                data: data@,
            },
            Command::Stop { id } => CommandView::Stop { id: *id },
            Command::Update { domain_ident, elf_ident, domain_type } => CommandView::Update {
                domain_ident: domain_ident@,
                elf_ident: elf_ident@,
                domain_type: *domain_type,
            },
            Command::Load { elf_ident, domain_ident, domain_type } => CommandView::Load {
                elf_ident: elf_ident@,
                domain_ident: domain_ident@,
                domain_type: *domain_type,
            },
            Command::Unload { domain_ident } => CommandView::Unload { domain_ident: domain_ident@ },
            Command::Unsupported => CommandView::Unsupported,
        }
    }
}

/// The response a read of the channel hands out.
#[derive(Clone, Copy, Debug, PartialEq, Eq, Structural)]
pub enum Response {
    /// The command succeeded; carries the session id, or zero.
    Success(usize),
    /// A chunk was received: session id, chunk number and byte count.
    Received(usize, usize, usize),
}

/// Work on domains that a command asks for.
pub enum DomainOp {
    /// Register `elf` as the image `ident` of type `ty`.
    Register { ident: String, elf: Vec<u8>, ty: DomainKind },
    /// Replace the running domain `old_ident` by one built from image `new_ident`.
    Update { old_ident: String, new_ident: String, ty: DomainKind },
    /// Build a domain from image `elf_ident` and run it as `domain_ident`.
    Load { elf_ident: String, domain_ident: String, ty: DomainKind },
    /// Remove the running domain `domain_ident`.
    Unload { domain_ident: String },
}

/// A [`DomainOp`] as mathematical values.
pub enum DomainOpView {
    Register { ident: Seq<char>, elf: Seq<u8>, ty: DomainKind },
    Update { old_ident: Seq<char>, new_ident: Seq<char>, ty: DomainKind },
    Load { elf_ident: Seq<char>, domain_ident: Seq<char>, ty: DomainKind },
    Unload { domain_ident: Seq<char> },
}

impl View for DomainOp {
    type V = DomainOpView;

    open spec fn view(&self) -> DomainOpView {
        match self {
            DomainOp::Register { ident, elf, ty } => DomainOpView::Register {
                ident: ident@,
                elf: elf@,
                ty: *ty,
            },
            DomainOp::Update { old_ident, new_ident, ty } => DomainOpView::Update {
                old_ident: old_ident@,
                new_ident: new_ident@,
                ty: *ty,
            },
            DomainOp::Load { elf_ident, domain_ident, ty } => DomainOpView::Load {
                elf_ident: elf_ident@,
                domain_ident: domain_ident@,
                ty: *ty,
            },
            DomainOp::Unload { domain_ident } => DomainOpView::Unload {
                domain_ident: domain_ident@,
            },
        }
    }
}

/// What a store on the channel comes to.
pub enum StoreStep {
    /// The store is answered at once: bytes consumed and result.
    Reply(usize, KernelResult<()>),
    /// Register the image (which cannot fail), then answer that the given
    /// number of bytes was consumed.
    Register(DomainOp, usize),
    /// Do the work, then report its outcome to [`CommandChannel::finish_op`].
    Perform(DomainOp),
}

/// A [`StoreStep`] as mathematical values.
pub enum StoreStepView {
    Reply(usize, KernelResult<()>),
    Register(DomainOpView, usize),
    Perform(DomainOpView),
}

impl View for StoreStep {
    type V = StoreStepView;

    open spec fn view(&self) -> StoreStepView {
        match self {
            StoreStep::Reply(n, r) => StoreStepView::Reply(*n, *r),
            StoreStep::Register(op, n) => StoreStepView::Register(op@, *n),
            StoreStep::Perform(op) => StoreStepView::Perform(op@),
        }
    }
}

/// The state of the channel.
pub struct ChannelState {
    /// The id the next session gets.
    pub next_id: u64,
    /// The id of the current session.
    pub id: Option<u64>,
    /// The domain type of the image being uploaded.
    pub domain_type: Option<DomainKind>,
    /// The name the image will be registered under.
    pub domain_ident: Option<Seq<char>>,
    /// The announced size of the image.
    pub domain_size: Option<usize>,
    /// The bytes of the image received so far.
    pub domain_data: Option<Seq<u8>>,
    /// The response the next read hands out.
    pub response: Option<Response>,
}

/// A rejected command: nothing consumed, `EINVAL`.
pub open spec fn rejected() -> StoreStepView {
    StoreStepView::Reply(0, Err(Error::Inval))
}

/// A store that panics in the kernel: a chunk or a stop with no session open,
/// a matching chunk when no image buffer exists, or a matching stop when a
/// part of the session is missing.
pub open spec fn store_panics(s: ChannelState, cmd: Option<CommandView>) -> bool {
    match cmd {
        Some(CommandView::Send { id, bytes, data, .. }) => s.id is None || (id == s.id.unwrap()
            && bytes == data.len() && s.domain_data is None),
        Some(CommandView::Stop { id }) => s.id is None || (id == s.id.unwrap() && (
        s.domain_data is None || s.domain_type is None || s.domain_ident is None)),
        _ => false,
    }
}

/// The state that follows `s` and the step that a store of `len` bytes
/// carrying `cmd` comes to (`None`: the bytes were not a command).
pub open spec fn store_next(s: ChannelState, cmd: Option<CommandView>, len: usize) -> (
    ChannelState,
    StoreStepView,
) {
    match cmd {
        None => (s, rejected()),
        Some(CommandView::Start { domain_type, elf_ident, domain_size }) => {
            let opened = ChannelState {
                next_id: vstd::wrapping::u64_specs::wrapping_add(s.next_id, 1),
                id: Some(s.next_id),
                ..s
            };
            match domain_type {
                None => (opened, rejected()),
                Some(ty) => (
                    ChannelState {
                        domain_type: Some(ty),
                        domain_ident: Some(elf_ident),
                        domain_size: Some(domain_size),
                        domain_data: Some(Seq::empty()),
                        response: Some(Response::Success(s.next_id as usize)),
                        ..opened
                    },
                    StoreStepView::Reply(len, Ok(())),
                ),
            }
        },
        Some(CommandView::Send { id, bytes, data_id, data }) => {
            if id != s.id.unwrap() || bytes != data.len() {
                (s, rejected())
            } else {
                (
                    ChannelState {
                        domain_data: Some(s.domain_data.unwrap() + data),
                        response: Some(Response::Received(s.id.unwrap() as usize, data_id, bytes)),
                        ..s
                    },
                    StoreStepView::Reply(len, Ok(())),
                )
            }
        },
        Some(CommandView::Stop { id }) => {
            if id != s.id.unwrap() {
                (s, rejected())
            } else {
                (
                    ChannelState {
                        id: None,
                        domain_type: None,
                        domain_ident: None,
                        domain_size: None,
                        domain_data: None,
                        response: Some(Response::Success(id as usize)),
                        ..s
                    },
                    StoreStepView::Register(
                        DomainOpView::Register {
                            ident: s.domain_ident.unwrap(),
                            elf: s.domain_data.unwrap(),
                            ty: s.domain_type.unwrap(),
                        },
                        len,
                    ),
                )
            }
        },
        Some(CommandView::Update { domain_ident, elf_ident, domain_type }) => match domain_type {
            None => (s, rejected()),
            Some(ty) => (
                s,
                StoreStepView::Perform(
                    DomainOpView::Update { old_ident: domain_ident, new_ident: elf_ident, ty },
                ),
            ),
        },
        Some(CommandView::Load { elf_ident, domain_ident, domain_type }) => match domain_type {
            None => (s, rejected()),
            Some(ty) => (
                s,
                StoreStepView::Perform(DomainOpView::Load { elf_ident, domain_ident, ty }),
            ),
        },
        Some(CommandView::Unload { domain_ident }) => (
            s,
            StoreStepView::Perform(DomainOpView::Unload { domain_ident }),
        ),
        Some(CommandView::Unsupported) => (s, rejected()),
    }
}

/// The view of an optional command.
pub open spec fn command_view(cmd: Option<Command>) -> Option<CommandView> {
    match cmd {
        Some(c) => Some(c@),
        None => None,
    }
}

/// The view of an optional string.
pub open spec fn opt_str(s: Option<String>) -> Option<Seq<char>> {
    match s {
        Some(x) => Some(x@),
        None => None,
    }
}

/// The view of an optional byte vector.
pub open spec fn opt_bytes(v: Option<Vec<u8>>) -> Option<Seq<u8>> {
    match v {
        Some(x) => Some(x@),
        None => None,
    }
}

/// The command channel.
pub struct CommandChannel {
    next_id: u64,
    id: Option<u64>,
    domain_type: Option<DomainKind>,
    domain_ident: Option<String>,
    domain_size: Option<usize>,
    domain_data: Option<Vec<u8>>,
    response: Option<Response>,
}

impl View for CommandChannel {
    type V = ChannelState;

    closed spec fn view(&self) -> ChannelState {
        ChannelState {
            next_id: self.next_id,
            id: self.id,
            domain_type: self.domain_type,
            domain_ident: opt_str(self.domain_ident),
            domain_size: self.domain_size,
            domain_data: opt_bytes(self.domain_data),
            response: self.response,
        }
    }
}

impl CommandChannel {
    /// A channel with no session, no response, and session ids from zero.
    pub fn new() -> (c: Self)
        ensures
            c@ == (ChannelState {
                next_id: 0,
                id: None,
                domain_type: None,
                domain_ident: None,
                domain_size: None,
                domain_data: None,
                response: None,
            }),
    {
        CommandChannel {
            next_id: 0,
            id: None,
            domain_type: None,
            domain_ident: None,
            domain_size: None,
            domain_data: None,
            response: None,
        }
    }

    /// Whether a store of `cmd` can go ahead; where it cannot, the kernel
    /// panics on it.
    pub fn can_store(&self, cmd: &Option<Command>) -> (r: bool)
        ensures
            r == !store_panics(self@, command_view(*cmd)),
    {
        match cmd {
            Some(Command::Send { id, bytes, data, .. }) => {
                match self.id {
                    None => false,
                    Some(cur) => !(*id == cur && *bytes == data.len() && self.domain_data.is_none()),
                }
            },
            Some(Command::Stop { id }) => {
                match self.id {
                    None => false,
                    Some(cur) => !(*id == cur && (self.domain_data.is_none()
                        || self.domain_type.is_none() || self.domain_ident.is_none())),
                }
            },
            _ => true,
        }
    }

    /// The response the next read hands out.
    pub fn pending_response(&self) -> (r: Option<Response>)
        ensures
            r == self@.response,
    {
        self.response
    }

    /// Serves a store of `data` on the channel, which parsed to `cmd`.
    pub fn store_value(&mut self, data: &[u8], cmd: Option<Command>) -> (r: StoreStep)
        requires
            !store_panics(old(self)@, command_view(cmd)),
        ensures
            (final(self)@, r@) == store_next(old(self)@, command_view(cmd), data@.len() as usize),
    {
        match cmd {
            None => StoreStep::Reply(0, Err(Error::Inval)),
            Some(Command::Start { domain_type, elf_ident, domain_size }) => {
                let id = self.next_id;
                self.next_id = self.next_id.wrapping_add(1);
                self.id = Some(id);
                match domain_type {
                    None => StoreStep::Reply(0, Err(Error::Inval)),
                    Some(ty) => {
                        self.domain_type = Some(ty);
                        self.domain_ident = Some(elf_ident);
                        self.domain_size = Some(domain_size);
                        self.domain_data = Some(Vec::new());
                        self.response = Some(Response::Success(id as usize));
                        StoreStep::Reply(data.len(), Ok(()))
                    },
                }
            },
            Some(Command::Send { id, bytes, data_id, data: chunk }) => {
                let cur = self.id.unwrap();
                if id != cur || bytes != chunk.len() {
                    return StoreStep::Reply(0, Err(Error::Inval));
                }
                let mut chunk = chunk;
                let mut image = self.domain_data.take().unwrap();
                image.append(&mut chunk);
                self.domain_data = Some(image);
                self.response = Some(Response::Received(cur as usize, data_id, bytes));
                StoreStep::Reply(data.len(), Ok(()))
            },
            Some(Command::Stop { id }) => {
                let cur = self.id.unwrap();
                if id != cur {
                    return StoreStep::Reply(0, Err(Error::Inval));
                }
                let sid = self.id.take().unwrap();
                let elf = self.domain_data.take().unwrap();
                let ty = self.domain_type.take().unwrap();
                let ident = self.domain_ident.take().unwrap();
                self.domain_size = None;
                self.response = Some(Response::Success(sid as usize));
                StoreStep::Register(DomainOp::Register { ident, elf, ty }, data.len())
            },
            Some(Command::Update { domain_ident, elf_ident, domain_type }) => {
                match domain_type {
                    None => StoreStep::Reply(0, Err(Error::Inval)),
                    Some(ty) => StoreStep::Perform(
                        DomainOp::Update { old_ident: domain_ident, new_ident: elf_ident, ty },
                    ),
                }
            },
            Some(Command::Load { elf_ident, domain_ident, domain_type }) => {
                match domain_type {
                    None => StoreStep::Reply(0, Err(Error::Inval)),
                    Some(ty) => StoreStep::Perform(DomainOp::Load { elf_ident, domain_ident, ty }),
                }
            },
            Some(Command::Unload { domain_ident }) => {
                StoreStep::Perform(DomainOp::Unload { domain_ident })
            },
            Some(Command::Unsupported) => StoreStep::Reply(0, Err(Error::Inval)),
        }
    }

    /// Answers a store of `data_len` bytes whose domain work has been done:
    /// success leaves the response `Success(0)` and consumes the bytes; failure
    /// consumes nothing and gives `EINVAL`.
    pub fn finish_op(&mut self, data_len: usize, succeeded: bool) -> (r: (usize, KernelResult<()>))
        ensures
            succeeded ==> r == (data_len, Ok::<(), Error>(())) && final(self)@ == (ChannelState {
                response: Some(Response::Success(0)),
                ..old(self)@
            }),
            !succeeded ==> r == (0usize, Err::<(), Error>(Error::Inval)) && final(self)@ == old(self)@,
    {
        if succeeded {
            self.response = Some(Response::Success(0));
            (data_len, Ok(()))
        } else {
            (0, Err(Error::Inval))
        }
    }

    /// Serves a read of the channel into `writer`, given the bytes the pending
    /// response encodes to: with no response, or with less room than the
    /// encoding needs, nothing is read and the answer is `EAGAIN`; otherwise
    /// the response is consumed and the encoding is written.
    pub fn read_value(&mut self, writer: &mut KernelSlicePtrWriter, encoded: &[u8]) -> (r: (
        usize,
        KernelResult<usize>,
    ))
        ensures
            final(self)@ == read_next(old(self)@, old(writer)@.len, encoded@.len()).0,
            read_next(old(self)@, old(writer)@.len, encoded@.len()).1 is None ==> {
                &&& r == (0usize, Err::<usize, Error>(Error::Again))
                &&& final(writer)@ == old(writer)@
            },
            read_next(old(self)@, old(writer)@.len, encoded@.len()).1 is Some ==> {
                &&& r.0 == encoded@.len()
                &&& encoded@.len() <= crate::buf::max_transfer() ==> r.1 == Ok::<usize, Error>(
                    old(writer)@.addr,
                ) && final(writer)@ == (crate::buf::Cursor {
                    addr: crate::buf::advance(old(writer)@.addr, encoded@.len() as usize),
                    len: (old(writer)@.len - encoded@.len()) as usize,
                })
                &&& encoded@.len() > crate::buf::max_transfer() ==> r.1 == Err::<usize, Error>(
                    Error::Fault,
                ) && final(writer)@ == old(writer)@
            },
    {
        if self.response.is_none() {
            return (0, Err(Error::Again));
        }
        if writer.len() < encoded.len() {
            return (0, Err(Error::Again));
        }
        self.response = None;
        (encoded.len(), writer.write(encoded))
    }
}

/// The state after chunks `chunks` (chunk number and bytes) are sent, in
/// order and with their true lengths, to session `id` by stores of `len` bytes.
pub open spec fn send_all(s: ChannelState, id: u64, chunks: Seq<(usize, Seq<u8>)>, len: usize) -> ChannelState
    decreases chunks.len(),
{
    if chunks.len() == 0 {
        s
    } else {
        let c = chunks[0];
        let cmd = Some(CommandView::Send { id, bytes: c.1.len() as usize, data_id: c.0, data: c.1 });
        send_all(store_next(s, cmd, len).0, id, chunks.drop_first(), len)
    }
}

/// The bytes of `chunks`, one after another.
pub open spec fn concat_chunks(chunks: Seq<(usize, Seq<u8>)>) -> Seq<u8>
    decreases chunks.len(),
{
    if chunks.len() == 0 {
        Seq::empty()
    } else {
        chunks[0].1 + concat_chunks(chunks.drop_first())
    }
}

/// Every chunk's length fits the `bytes` field of a `Send`.
pub open spec fn chunks_fit(chunks: Seq<(usize, Seq<u8>)>) -> bool {
    forall|i: int| 0 <= i < chunks.len() ==> #[trigger] chunks[i].1.len() <= usize::MAX
}

/// Sending chunks to the open session `id` appends them to its image, keeps
/// the rest of the session, and none of the sends panics.
pub proof fn lemma_send_all_appends(s: ChannelState, id: u64, chunks: Seq<(usize, Seq<u8>)>, len: usize)
    requires
        s.id == Some(id),
        s.domain_data is Some,
        chunks_fit(chunks),
    ensures
        send_all(s, id, chunks, len).id == Some(id),
        send_all(s, id, chunks, len).next_id == s.next_id,
        send_all(s, id, chunks, len).domain_type == s.domain_type,
        send_all(s, id, chunks, len).domain_ident == s.domain_ident,
        send_all(s, id, chunks, len).domain_data == Some(s.domain_data.unwrap() + concat_chunks(chunks)),
    decreases chunks.len(),
{
    if chunks.len() == 0 {
        assert(s.domain_data.unwrap() + concat_chunks(chunks) =~= s.domain_data.unwrap());
    } else {
        let c = chunks[0];
        let cmd = Some(CommandView::Send { id, bytes: c.1.len() as usize, data_id: c.0, data: c.1 });
        assert(chunks[0].1.len() <= usize::MAX);
        assert(!store_panics(s, cmd));
        let s1 = store_next(s, cmd, len).0;
        assert(s1.domain_data == Some(s.domain_data.unwrap() + c.1));
        let rest = chunks.drop_first();
        assert(chunks_fit(rest)) by {
            assert forall|i: int| 0 <= i < rest.len() implies #[trigger] rest[i].1.len() <= usize::MAX by {
                assert(rest[i] == chunks[i + 1]);
            }
        }
        lemma_send_all_appends(s1, id, rest, len);
        assert(s.domain_data.unwrap() + c.1 + concat_chunks(rest) =~= s.domain_data.unwrap()
            + concat_chunks(chunks));
    }
}

/// An upload session registers what was uploaded: after a `Start` with a
/// valid domain type, any number of `Send`s of chunks with their true lengths
/// to the id that `Start` handed out, and a `Stop` of that id, the channel
/// asks for the image made of the chunks, in order, to be registered under the
/// name and type given at `Start`; it then has no session open and answers the
/// next read with the session id. No store of the session panics.
pub proof fn lemma_upload_registers_image(
    s0: ChannelState,
    ty: DomainKind,
    ident: Seq<char>,
    size: usize,
    chunks: Seq<(usize, Seq<u8>)>,
    len: usize,
)
    requires
        chunks_fit(chunks),
    ensures
        ({
            let id = s0.next_id;
            let start = Some(CommandView::Start { domain_type: Some(ty), elf_ident: ident, domain_size: size });
            let s1 = store_next(s0, start, len).0;
            let s2 = send_all(s1, id, chunks, len);
            let stop = Some(CommandView::Stop { id });
            &&& !store_panics(s0, start)
            &&& store_next(s0, start, len).1 == StoreStepView::Reply(len, Ok::<(), Error>(()))
            &&& !store_panics(s2, stop)
            &&& store_next(s2, stop, len).1 == StoreStepView::Register(
                DomainOpView::Register { ident, elf: concat_chunks(chunks), ty },
                len,
            )
            &&& store_next(s2, stop, len).0.id is None
            &&& store_next(s2, stop, len).0.domain_data is None
            &&& store_next(s2, stop, len).0.response == Some(Response::Success(id as usize))
        }),
{
    let id = s0.next_id;
    let start = Some(CommandView::Start { domain_type: Some(ty), elf_ident: ident, domain_size: size });
    let s1 = store_next(s0, start, len).0;
    assert(s1.domain_data == Some(Seq::<u8>::empty()));
    lemma_send_all_appends(s1, id, chunks, len);
    assert(Seq::<u8>::empty() + concat_chunks(chunks) =~= concat_chunks(chunks));
}

/// A store that is turned down consumes nothing and changes nothing, except a
/// `Start` with an unknown domain type, which still uses up a session id and
/// makes it the current one.
pub proof fn lemma_rejected_store_keeps_state(s: ChannelState, cmd: Option<CommandView>, len: usize)
    requires
        !store_panics(s, cmd),
        store_next(s, cmd, len).1 == rejected(),
    ensures
        !(cmd matches Some(CommandView::Start { .. })) ==> store_next(s, cmd, len).0 == s,
        (cmd matches Some(CommandView::Start { .. })) ==> store_next(s, cmd, len).0 == (ChannelState {
            next_id: vstd::wrapping::u64_specs::wrapping_add(s.next_id, 1),
            id: Some(s.next_id),
            ..s
        }),
{
}

/// What user space uploads is what domains are built from: once the
/// registration an upload session ends in is applied to a registry that did
/// not already hold an image of that name and length, a domain of the
/// session's type built from that name gets exactly the uploaded chunks, in
/// order.
pub proof fn lemma_uploaded_image_is_buildable(
    s0: ChannelState,
    ty: DomainKind,
    ident: Seq<char>,
    size: usize,
    chunks: Seq<(usize, Seq<u8>)>,
    len: usize,
    r: RegistryView,
)
    requires
        chunks_fit(chunks),
        !already_registered(r, ident, concat_chunks(chunks).len()),
    ensures
        ({
            let id = s0.next_id;
            let start = Some(CommandView::Start { domain_type: Some(ty), elf_ident: ident, domain_size: size });
            let s2 = send_all(store_next(s0, start, len).0, id, chunks, len);
            match store_next(s2, Some(CommandView::Stop { id }), len).1 {
                StoreStepView::Register(DomainOpView::Register { ident: name, elf, ty: kind }, _) =>
                    image_of(register_next(r, name, elf, kind).images, ident, ty) == Some(concat_chunks(chunks)),
                _ => false,
            }
        }),
{
    lemma_upload_registers_image(s0, ty, ident, size, chunks, len);
}

/// A chunk sent to the open session is acknowledged by session, chunk and
/// size: after a `Send` to the open session `sid` of chunk `data_id` whose
/// announced size is its true size, the store consumes the whole input, the
/// chunk is appended to the session's image, the rest of the session is
/// kept, and the next read answers `Received(sid, data_id, data.len())`:
/// the session id first, then the chunk number, then the byte count.
pub proof fn lemma_send_acknowledged(s: ChannelState, sid: u64, data_id: usize, data: Seq<u8>, len: usize)
    requires
        s.id == Some(sid),
        s.domain_data is Some,
        data.len() <= usize::MAX,
    ensures
        ({
            let cmd = Some(CommandView::Send { id: sid, bytes: data.len() as usize, data_id, data });
            let (t, step) = store_next(s, cmd, len);
            &&& !store_panics(s, cmd)
            &&& step == StoreStepView::Reply(len, Ok::<(), Error>(()))
            &&& t.response == Some(Response::Received(sid as usize, data_id, data.len() as usize))
            &&& t.domain_data == Some(s.domain_data.unwrap() + data)
            &&& t.id == s.id && t.next_id == s.next_id && t.domain_type == s.domain_type
            &&& t.domain_ident == s.domain_ident && t.domain_size == s.domain_size
        }),
{
}

/// What a store of `len` bytes carrying `cmd` answers, when the domain work
/// it asks for (if any) succeeds exactly when `work_ok`: bytes consumed and
/// result, as `store_value` replies, as `Register` answers once the image
/// is registered, or as `finish_op` answers the work.
pub open spec fn store_answer(s: ChannelState, cmd: Option<CommandView>, len: usize, work_ok: bool) -> (usize, KernelResult<()>) {
    match store_next(s, cmd, len).1 {
        StoreStepView::Reply(n, r) => (n, r),
        StoreStepView::Register(_, n) => (n, Ok(())),
        StoreStepView::Perform(_) => if work_ok {
            (len, Ok(()))
        } else {
            (0, Err(Error::Inval))
        },
    }
}

/// Every store is answered all or nothing: a success consumes the whole
/// input, and every failure is `EINVAL` with nothing consumed.
pub proof fn lemma_store_all_or_nothing(s: ChannelState, cmd: Option<CommandView>, len: usize, work_ok: bool)
    requires
        !store_panics(s, cmd),
    ensures
        store_answer(s, cmd, len, work_ok).1 is Ok ==> store_answer(s, cmd, len, work_ok).0 == len,
        store_answer(s, cmd, len, work_ok).1 is Err ==> store_answer(s, cmd, len, work_ok) == (
            0usize,
            Err::<(), Error>(Error::Inval),
        ),
{
}

/// The state and answer of a read of the channel with `room` bytes of room,
/// when the pending response encodes to `enc_len` bytes: `None` stands for
/// `EAGAIN` with the state unchanged, `Some(n)` for `n` bytes handed out.
pub open spec fn read_next(s: ChannelState, room: usize, enc_len: nat) -> (ChannelState, Option<nat>) {
    if s.response is None || room < enc_len {
        (s, None)
    } else {
        (ChannelState { response: None, ..s }, Some(enc_len))
    }
}

/// A response is handed out once: right after a read that handed it out, the
/// next read finds nothing and is answered `EAGAIN`.
pub proof fn lemma_response_read_once(s: ChannelState, room1: usize, len1: nat, room2: usize, len2: nat)
    requires
        read_next(s, room1, len1).1 is Some,
    ensures
        read_next(read_next(s, room1, len1).0, room2, len2).1 is None,
{
}

} // verus!
