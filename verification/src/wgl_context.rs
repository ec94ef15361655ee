//! The making of a WGL context on a window, step by step.
//!
//! The one who makes the native calls starts with [`Context::new`], performs
//! the action it is handed, and reports what came of it to
//! [`Context::advance`], until the action is to finish or to fail.

use vstd::prelude::*;
use crate::error::{ContextError, CreationError, NativeCall, NegotiationError};
use crate::gl::{Api, GlAttributes, PixelFormat, PixelFormatRequirements};
use crate::wgl::{
    arb_refuses, arb_result, arb_unsupported, choose_arb_pixel_format, choose_native_pixel_format,
    choose_native_pixel_format_id, context_refusal, context_refused, native_descriptor,
    native_result, native_unsupported, ArbChoice, ArbFormatValues, ExtensionSource,
    PixelFormatDescriptor, WglExtensions,
};

verus! {

/// What is going on while a context is made.
#[derive(Debug, Clone, Copy, PartialEq, Eq, Structural)]
pub enum Stage {
    /// The drawing surface of the window is being fetched.
    DeviceContext,
    /// The driver's optional entry points are being loaded.
    ExtraFunctions,
    /// The capability string is being read.
    Extensions,
    /// The surface is being asked which format is bound to it.
    BoundFormat,
    /// The driver's chooser is looking for a format.
    ArbChoice,
    /// The native chooser is looking for a format.
    NativeChoice,
    /// The chosen format is being bound to the surface.
    Binding,
    /// The driver is being asked what the bound format is like.
    ArbReadBack,
    /// The bound format's descriptor is being read.
    NativeReadBack,
    /// The context is being created.
    Creating,
    /// The driver's library is being loaded.
    Library,
    /// The swap interval is being set.
    SwapInterval,
    /// The context is made.
    Finished(PixelFormat),
    /// No context was made.
    Failed(ContextError),
}

impl Stage {
    /// The native call whose answer is awaited. Once the making has ended
    /// none is, and the creation of the context stands for it.
    pub open spec fn pending(self) -> NativeCall {
        match self {
            Stage::DeviceContext => NativeCall::GetDeviceContext,
            Stage::ExtraFunctions => NativeCall::LoadExtraFunctions,
            Stage::Extensions => NativeCall::ReadExtensions,
            Stage::BoundFormat => NativeCall::GetPixelFormat,
            Stage::ArbChoice => NativeCall::ChoosePixelFormat,
            Stage::NativeChoice => NativeCall::ChoosePixelFormat,
            Stage::Binding => NativeCall::SetPixelFormat,
            Stage::ArbReadBack => NativeCall::DescribePixelFormat,
            Stage::NativeReadBack => NativeCall::DescribePixelFormat,
            Stage::Creating => NativeCall::CreateContext,
            Stage::Library => NativeCall::LoadLibrary,
            Stage::SwapInterval => NativeCall::SwapInterval,
            Stage::Finished(_) => NativeCall::CreateContext,
            Stage::Failed(_) => NativeCall::CreateContext,
        }
    }

    /// Computes [`Stage::pending`].
    pub fn pending_call(&self) -> (call: NativeCall)
        ensures
            call == self.pending(),
    {
        match self {
            Stage::DeviceContext => NativeCall::GetDeviceContext,
            Stage::ExtraFunctions => NativeCall::LoadExtraFunctions,
            Stage::Extensions => NativeCall::ReadExtensions,
            Stage::BoundFormat => NativeCall::GetPixelFormat,
            Stage::ArbChoice => NativeCall::ChoosePixelFormat,
            Stage::NativeChoice => NativeCall::ChoosePixelFormat,
            Stage::Binding => NativeCall::SetPixelFormat,
            Stage::ArbReadBack => NativeCall::DescribePixelFormat,
            Stage::NativeReadBack => NativeCall::DescribePixelFormat,
            Stage::Creating => NativeCall::CreateContext,
            Stage::Library => NativeCall::LoadLibrary,
            Stage::SwapInterval => NativeCall::SwapInterval,
            Stage::Finished(_) => NativeCall::CreateContext,
            Stage::Failed(_) => NativeCall::CreateContext,
        }
    }
}

/// What came of a native call.
#[derive(Debug, Clone, Copy, PartialEq, Eq, Structural)]
pub enum Event {
    /// It failed; the platform's last error code is this.
    Failed(u32),
    /// It succeeded and has nothing to tell.
    Done,
    /// The optional entry points are loaded; these two are among them or not:
    /// the one that reads the ARB capability string, and the one that reads
    /// the EXT one.
    ExtraFunctions { arb_string: bool, ext_string: bool },
    /// The capability string allows this.
    Extensions(WglExtensions),
    /// This format is bound to the surface; 0 where none is.
    BoundFormat(i32),
    /// The driver's chooser answered.
    ArbChoice(ArbChoice),
    /// The native chooser answered with this format; 0 where it found none.
    NativeChoice(i32),
    /// The driver reports this of the format.
    ArbValues(ArbFormatValues),
    /// The descriptor of the format is this.
    Descriptor(PixelFormatDescriptor),
}

/// What to do next.
#[derive(Debug, Clone, Copy, PartialEq, Eq, Structural)]
pub enum Action {
    /// Fetch the drawing surface of the window.
    GetDeviceContext,
    /// Load the driver's optional entry points, on an invisible window of
    /// the same class as the real one.
    LoadExtraFunctions,
    /// Read the capability string through this entry point.
    ReadExtensions(ExtensionSource),
    /// Ask the surface which format is bound to it.
    GetPixelFormat,
    /// Ask the driver's chooser for a format, with the attribute list for
    /// the requirements.
    ChooseArbFormat,
    /// Ask the native chooser for a format like this descriptor.
    ChooseNativeFormat(PixelFormatDescriptor),
    /// Bind this format to the surface.
    SetPixelFormat(i32),
    /// Ask the driver what this format is like.
    QueryArbFormat(i32),
    /// Read the descriptor of this format.
    DescribePixelFormat(i32),
    /// Create the context, as the capability string and the wishes of the
    /// caller say.
    CreateContext,
    /// Load the driver's library.
    LoadLibrary,
    /// Bind the context to this thread, set the swap interval to this, and
    /// bind again what was bound before, whether or not setting it worked.
    SetSwapInterval(i32),
    /// The context is made; its format is this.
    Finish(PixelFormat),
    /// Give up.
    Fail(ContextError),
}

/// The making of one context.
#[derive(Debug, Clone, Copy)]
pub struct Context {
    /// What the framebuffer must be like.
    pub pf_reqs: PixelFormatRequirements,
    /// What the context must be like.
    pub opengl: GlAttributes,
    /// What is going on.
    pub stage: Stage,
    /// What the capability string allows, once it is read.
    pub extensions: WglExtensions,
    /// The format of the surface, once it is known; 0 before.
    pub format_id: i32,
    /// What the format is like, once it is read back.
    pub pixel_format: Option<PixelFormat>,
}

/// The swap interval that `opengl` asks for.
pub open spec fn wanted_interval(opengl: GlAttributes) -> i32 {
    if opengl.vsync {
        1
    } else {
        0
    }
}

impl Context {
    /// The making as it begins.
    pub open spec fn initial(pf_reqs: PixelFormatRequirements, opengl: GlAttributes) -> Context {
        Context {
            pf_reqs,
            opengl,
            stage: Stage::DeviceContext,
            extensions: WglExtensions::none(),
            format_id: 0,
            pixel_format: None,
        }
    }

    /// Moves to `stage`.
    pub open spec fn at(self, stage: Stage) -> Context {
        Context { stage, ..self }
    }

    /// Gives up for `error`.
    pub open spec fn fail(self, error: ContextError) -> (Context, Action) {
        (self.at(Stage::Failed(error)), Action::Fail(error))
    }

    /// Gives up: a native call failed.
    pub open spec fn fail_call(self, code: u32) -> (Context, Action) {
        self.fail(ContextError::Creation(CreationError { call: self.stage.pending(), code }))
    }

    /// Gives up: there is no format.
    pub open spec fn fail_format(self) -> (Context, Action) {
        self.fail(ContextError::Negotiation(NegotiationError::NoMatchingFormat))
    }

    /// Goes on once the capability string is read. What the request asks of
    /// the context is held against it before any format is looked for.
    pub open spec fn with_extensions(self, ext: WglExtensions) -> (Context, Action) {
        let known = Context { extensions: ext, ..self };
        match context_refusal(ext, self.opengl) {
            Some(e) => known.fail(ContextError::Negotiation(e)),
            None => (known.at(Stage::BoundFormat), Action::GetPixelFormat),
        }
    }

    /// Goes on to read back the format `id`, the way the driver allows.
    pub open spec fn read_back(self, id: i32) -> (Context, Action) {
        let bound = Context { format_id: id, ..self };
        if self.extensions.pixel_format {
            (bound.at(Stage::ArbReadBack), Action::QueryArbFormat(id))
        } else {
            (bound.at(Stage::NativeReadBack), Action::DescribePixelFormat(id))
        }
    }

    /// Goes on once it is known which format is bound to the surface. A
    /// surface that has a format keeps it: a format is bound only once.
    pub open spec fn with_bound_format(self, id: i32) -> (Context, Action) {
        if id != 0 {
            self.read_back(id)
        } else if self.extensions.pixel_format {
            if arb_unsupported(self.extensions, self.pf_reqs) {
                self.fail_format()
            } else {
                (self.at(Stage::ArbChoice), Action::ChooseArbFormat)
            }
        } else {
            if native_unsupported(self.pf_reqs) {
                self.fail_format()
            } else {
                (
                    self.at(Stage::NativeChoice),
                    Action::ChooseNativeFormat(native_descriptor(self.pf_reqs)),
                )
            }
        }
    }

    /// Goes on once a chooser has answered with the format `id`, 0 for none.
    pub open spec fn with_chosen_format(self, id: i32) -> (Context, Action) {
        if id == 0 {
            self.fail_format()
        } else {
            (Context { format_id: id, ..self }.at(Stage::Binding), Action::SetPixelFormat(id))
        }
    }

    /// Goes on once the format is read back.
    pub open spec fn with_format(self, format: Result<PixelFormat, NegotiationError>) -> (
        Context,
        Action,
    ) {
        match format {
            Ok(f) => (
                Context { pixel_format: Some(f), ..self }.at(Stage::Creating),
                Action::CreateContext,
            ),
            Err(e) => self.fail(ContextError::Negotiation(e)),
        }
    }

    /// Ends the making, well.
    pub open spec fn finish(self) -> (Context, Action) {
        match self.pixel_format {
            Some(f) => (self.at(Stage::Finished(f)), Action::Finish(f)),
            None => self.fail_format(),
        }
    }

    /// Goes on once the driver's library is loaded: the swap interval is set
    /// where the driver can set one.
    pub open spec fn with_library(self) -> (Context, Action) {
        if self.extensions.swap_control {
            (self.at(Stage::SwapInterval), Action::SetSwapInterval(wanted_interval(self.opengl)))
        } else {
            self.finish()
        }
    }

    /// What follows `event`. An event that does not answer what was asked
    /// counts as the failure of the call that was asked for, except that a
    /// chooser or a read-back that fails to answer has found no format. Once
    /// the making has ended, every event is answered as the last one was.
    pub open spec fn next(self, event: Event) -> (Context, Action) {
        match self.stage {
            Stage::DeviceContext => match event {
                Event::Done => (self.at(Stage::ExtraFunctions), Action::LoadExtraFunctions),
                Event::Failed(code) => self.fail_call(code),
                _ => self.fail_call(0),
            },
            Stage::ExtraFunctions => match event {
                Event::ExtraFunctions { arb_string, ext_string } => if arb_string {
                    (self.at(Stage::Extensions), Action::ReadExtensions(ExtensionSource::Arb))
                } else if ext_string {
                    (self.at(Stage::Extensions), Action::ReadExtensions(ExtensionSource::Ext))
                } else {
                    self.with_extensions(WglExtensions::none())
                },
                Event::Failed(code) => self.fail_call(code),
                _ => self.fail_call(0),
            },
            Stage::Extensions => match event {
                Event::Extensions(ext) => self.with_extensions(ext),
                Event::Failed(code) => self.fail_call(code),
                _ => self.fail_call(0),
            },
            Stage::BoundFormat => match event {
                Event::BoundFormat(id) => self.with_bound_format(id),
                Event::Failed(code) => self.fail_call(code),
                _ => self.fail_call(0),
            },
            Stage::ArbChoice => match event {
                Event::ArbChoice(choice) => self.with_chosen_format(
                    if choice.succeeded && choice.num_formats != 0 {
                        choice.format_id
                    } else {
                        0
                    },
                ),
                _ => self.fail_format(),
            },
            Stage::NativeChoice => match event {
                Event::NativeChoice(id) => self.with_chosen_format(id),
                _ => self.fail_format(),
            },
            Stage::Binding => match event {
                Event::Done => self.read_back(self.format_id),
                Event::Failed(code) => self.fail_call(code),
                _ => self.fail_call(0),
            },
            Stage::ArbReadBack => match event {
                Event::ArbValues(values) => self.with_format(
                    arb_result(self.extensions, values, self.pf_reqs),
                ),
                _ => self.fail_format(),
            },
            Stage::NativeReadBack => match event {
                Event::Descriptor(d) => self.with_format(native_result(Some(d), self.pf_reqs)),
                _ => self.fail_format(),
            },
            Stage::Creating => match event {
                Event::Done => (self.at(Stage::Library), Action::LoadLibrary),
                Event::Failed(code) => self.fail_call(code),
                _ => self.fail_call(0),
            },
            Stage::Library => match event {
                Event::Done => self.with_library(),
                Event::Failed(code) => self.fail_call(code),
                _ => self.fail_call(0),
            },
            Stage::SwapInterval => match event {
                Event::Done => self.finish(),
                Event::Failed(code) => self.fail_call(code),
                _ => self.fail_call(0),
            },
            Stage::Finished(f) => (self, Action::Finish(f)),
            Stage::Failed(e) => (self, Action::Fail(e)),
        }
    }

    /// Begins the making of a context on a window: the first thing to do is
    /// to fetch the window's drawing surface.
    pub fn new(pf_reqs: &PixelFormatRequirements, opengl: &GlAttributes) -> (begun: (
        Context,
        Action,
    ))
        ensures
            begun.0 == Context::initial(*pf_reqs, *opengl),
            begun.1 == Action::GetDeviceContext,
    {
        (
            Context {
                pf_reqs: *pf_reqs,
                opengl: *opengl,
                stage: Stage::DeviceContext,
                extensions: WglExtensions::no_extensions(),
                format_id: 0,
                pixel_format: None,
            },
            Action::GetDeviceContext,
        )
    }

    fn moved_to(self, stage: Stage) -> (moved: Context)
        ensures
            moved == self.at(stage),
    {
        Context { stage, ..self }
    }

    fn failing(self, error: ContextError) -> (next: (Context, Action))
        ensures
            next == self.fail(error),
    {
        (self.moved_to(Stage::Failed(error)), Action::Fail(error))
    }

    fn failing_call(self, code: u32) -> (next: (Context, Action))
        ensures
            next == self.fail_call(code),
    {
        let call = self.stage.pending_call();
        self.failing(ContextError::Creation(CreationError { call, code }))
    }

    fn failing_format(self) -> (next: (Context, Action))
        ensures
            next == self.fail_format(),
    {
        self.failing(ContextError::Negotiation(NegotiationError::NoMatchingFormat))
    }

    fn extensions_read(self, ext: WglExtensions) -> (next: (Context, Action))
        ensures
            next == self.with_extensions(ext),
    {
        let known = Context { extensions: ext, ..self };
        match context_refused(&ext, &self.opengl) {
            Some(e) => known.failing(ContextError::Negotiation(e)),
            None => (known.moved_to(Stage::BoundFormat), Action::GetPixelFormat),
        }
    }

    fn reading_back(self, id: i32) -> (next: (Context, Action))
        ensures
            next == self.read_back(id),
    {
        let bound = Context { format_id: id, ..self };
        if self.extensions.pixel_format {
            (bound.moved_to(Stage::ArbReadBack), Action::QueryArbFormat(id))
        } else {
            (bound.moved_to(Stage::NativeReadBack), Action::DescribePixelFormat(id))
        }
    }

    fn bound_format_known(self, id: i32) -> (next: (Context, Action))
        ensures
            next == self.with_bound_format(id),
    {
        if id != 0 {
            self.reading_back(id)
        } else if self.extensions.pixel_format {
            if arb_refuses(&self.extensions, &self.pf_reqs) {
                self.failing_format()
            } else {
                (self.moved_to(Stage::ArbChoice), Action::ChooseArbFormat)
            }
        } else {
            match choose_native_pixel_format_id(&self.pf_reqs) {
                Err(_) => self.failing_format(),
                Ok(descriptor) => (
                    self.moved_to(Stage::NativeChoice),
                    Action::ChooseNativeFormat(descriptor),
                ),
            }
        }
    }

    fn format_chosen(self, id: i32) -> (next: (Context, Action))
        ensures
            next == self.with_chosen_format(id),
    {
        if id == 0 {
            self.failing_format()
        } else {
            let bound = Context { format_id: id, ..self };
            (bound.moved_to(Stage::Binding), Action::SetPixelFormat(id))
        }
    }

    fn format_read(self, format: Result<PixelFormat, NegotiationError>) -> (next: (
        Context,
        Action,
    ))
        ensures
            next == self.with_format(format),
    {
        match format {
            Ok(f) => {
                let read = Context { pixel_format: Some(f), ..self };
                (read.moved_to(Stage::Creating), Action::CreateContext)
            },
            Err(e) => self.failing(ContextError::Negotiation(e)),
        }
    }

    fn finishing(self) -> (next: (Context, Action))
        ensures
            next == self.finish(),
    {
        match self.pixel_format {
            Some(f) => (self.moved_to(Stage::Finished(f)), Action::Finish(f)),
            None => self.failing_format(),
        }
    }

    fn library_loaded(self) -> (next: (Context, Action))
        ensures
            next == self.with_library(),
    {
        if self.extensions.swap_control {
            let interval: i32 = if self.opengl.vsync {
                1
            } else {
                0
            };
            (self.moved_to(Stage::SwapInterval), Action::SetSwapInterval(interval))
        } else {
            self.finishing()
        }
    }

    /// Takes in what came of the action that was handed out last, and says
    /// what to do next.
    pub fn advance(self, event: Event) -> (next: (Context, Action))
        ensures
            next == self.next(event),
    {
        match self.stage {
            Stage::DeviceContext => match event {
                Event::Done => (self.moved_to(Stage::ExtraFunctions), Action::LoadExtraFunctions),
                Event::Failed(code) => self.failing_call(code),
                _ => self.failing_call(0),
            },
            Stage::ExtraFunctions => match event {
                Event::ExtraFunctions { arb_string, ext_string } => if arb_string {
                    (
                        self.moved_to(Stage::Extensions),
                        Action::ReadExtensions(ExtensionSource::Arb),
                    )
                } else if ext_string {
                    (
                        self.moved_to(Stage::Extensions),
                        Action::ReadExtensions(ExtensionSource::Ext),
                    )
                } else {
                    self.extensions_read(WglExtensions::no_extensions())
                },
                Event::Failed(code) => self.failing_call(code),
                _ => self.failing_call(0),
            },
            Stage::Extensions => match event {
                Event::Extensions(ext) => self.extensions_read(ext),
                Event::Failed(code) => self.failing_call(code),
                _ => self.failing_call(0),
            },
            Stage::BoundFormat => match event {
                Event::BoundFormat(id) => self.bound_format_known(id),
                Event::Failed(code) => self.failing_call(code),
                _ => self.failing_call(0),
            },
            Stage::ArbChoice => match event {
                Event::ArbChoice(choice) => {
                    let id: i32 = if choice.succeeded && choice.num_formats != 0 {
                        choice.format_id
                    } else {
                        0
                    };
                    self.format_chosen(id)
                },
                _ => self.failing_format(),
            },
            Stage::NativeChoice => match event {
                Event::NativeChoice(id) => self.format_chosen(id),
                _ => self.failing_format(),
            },
            Stage::Binding => match event {
                Event::Done => self.reading_back(self.format_id),
                Event::Failed(code) => self.failing_call(code),
                _ => self.failing_call(0),
            },
            Stage::ArbReadBack => match event {
                Event::ArbValues(values) => {
                    let format = choose_arb_pixel_format(&self.extensions, &values, &self.pf_reqs);
                    self.format_read(format)
                },
                _ => self.failing_format(),
            },
            Stage::NativeReadBack => match event {
                Event::Descriptor(d) => {
                    let format = choose_native_pixel_format(Some(d), &self.pf_reqs);
                    self.format_read(format)
                },
                _ => self.failing_format(),
            },
            Stage::Creating => match event {
                Event::Done => (self.moved_to(Stage::Library), Action::LoadLibrary),
                Event::Failed(code) => self.failing_call(code),
                _ => self.failing_call(0),
            },
            Stage::Library => match event {
                Event::Done => self.library_loaded(),
                Event::Failed(code) => self.failing_call(code),
                _ => self.failing_call(0),
            },
            Stage::SwapInterval => match event {
                Event::Done => self.finishing(),
                Event::Failed(code) => self.failing_call(code),
                _ => self.failing_call(0),
            },
            Stage::Finished(f) => (self, Action::Finish(f)),
            Stage::Failed(e) => (self, Action::Fail(e)),
        }
    }

    /// The API of the context that is made.
    pub fn get_api(&self) -> (api: Api)
        ensures
            api == Api::OpenGl,
    {
        Api::OpenGl
    }

    /// The format of the context, once it is read back.
    pub fn get_pixel_format(&self) -> (format: Option<PixelFormat>)
        ensures
            format == self.pixel_format,
    {
        self.pixel_format
    }
}

impl Stage {
    /// The making has ended, well or not.
    pub open spec fn ended(self) -> bool {
        self is Finished || self is Failed
    }

    /// How far the making has come.
    pub open spec fn rank(self) -> nat {
        match self {
            Stage::DeviceContext => 0,
            Stage::ExtraFunctions => 1,
            Stage::Extensions => 2,
            Stage::BoundFormat => 3,
            Stage::ArbChoice => 4,
            Stage::NativeChoice => 4,
            Stage::Binding => 5,
            Stage::ArbReadBack => 6,
            Stage::NativeReadBack => 6,
            Stage::Creating => 7,
            Stage::Library => 8,
            Stage::SwapInterval => 9,
            Stage::Finished(_) => 10,
            Stage::Failed(_) => 10,
        }
    }
}

impl Context {
    /// What holds of every making that began with [`Context::new`]:
    /// - once the capability string is read, the driver can be asked for the
    ///   context that the request describes;
    /// - while the driver's chooser is asked, the attribute list for the
    ///   requirements can be written;
    /// - a format that was read back has every depth that is required, and a
    ///   context is only created, and the making only ends well, with such a
    ///   format.
    pub open spec fn well_formed(self) -> bool {
        &&& self.stage.rank() >= 3 && !(self.stage is Failed) ==> context_refusal(
            self.extensions,
            self.opengl,
        ) is None
        &&& self.stage is ArbChoice ==> self.extensions.pixel_format && !arb_unsupported(
            self.extensions,
            self.pf_reqs,
        )
        &&& self.pixel_format matches Some(f) ==> f.meets_depths(self.pf_reqs)
        &&& self.stage.rank() >= 7 && !(self.stage is Failed) ==> self.pixel_format is Some
        &&& self.stage matches Stage::Finished(f) ==> self.pixel_format == Some(f)
    }
}

/// A making that has just begun is well formed.
pub proof fn lemma_initial_well_formed(pf_reqs: PixelFormatRequirements, opengl: GlAttributes)
    ensures
        Context::initial(pf_reqs, opengl).well_formed(),
{
}

proof fn lemma_step_from_devicecontext(context: Context, event: Event)
    requires
        context.well_formed(),
        context.stage is DeviceContext,
    ensures
        context.next(event).0.well_formed(),
        context.next(event).0.pf_reqs == context.pf_reqs,
        context.next(event).0.opengl == context.opengl,
{
}

proof fn lemma_step_from_extrafunctions(context: Context, event: Event)
    requires
        context.well_formed(),
        context.stage is ExtraFunctions,
    ensures
        context.next(event).0.well_formed(),
        context.next(event).0.pf_reqs == context.pf_reqs,
        context.next(event).0.opengl == context.opengl,
{
}

proof fn lemma_step_from_extensions(context: Context, event: Event)
    requires
        context.well_formed(),
        context.stage is Extensions,
    ensures
        context.next(event).0.well_formed(),
        context.next(event).0.pf_reqs == context.pf_reqs,
        context.next(event).0.opengl == context.opengl,
{
}

proof fn lemma_step_from_boundformat(context: Context, event: Event)
    requires
        context.well_formed(),
        context.stage is BoundFormat,
    ensures
        context.next(event).0.well_formed(),
        context.next(event).0.pf_reqs == context.pf_reqs,
        context.next(event).0.opengl == context.opengl,
{
}

proof fn lemma_step_from_arbchoice(context: Context, event: Event)
    requires
        context.well_formed(),
        context.stage is ArbChoice,
    ensures
        context.next(event).0.well_formed(),
        context.next(event).0.pf_reqs == context.pf_reqs,
        context.next(event).0.opengl == context.opengl,
{
}

proof fn lemma_step_from_nativechoice(context: Context, event: Event)
    requires
        context.well_formed(),
        context.stage is NativeChoice,
    ensures
        context.next(event).0.well_formed(),
        context.next(event).0.pf_reqs == context.pf_reqs,
        context.next(event).0.opengl == context.opengl,
{
}

proof fn lemma_step_from_binding(context: Context, event: Event)
    requires
        context.well_formed(),
        context.stage is Binding,
    ensures
        context.next(event).0.well_formed(),
        context.next(event).0.pf_reqs == context.pf_reqs,
        context.next(event).0.opengl == context.opengl,
{
}

proof fn lemma_step_from_arbreadback(context: Context, event: Event)
    requires
        context.well_formed(),
        context.stage is ArbReadBack,
    ensures
        context.next(event).0.well_formed(),
        context.next(event).0.pf_reqs == context.pf_reqs,
        context.next(event).0.opengl == context.opengl,
{
    if let Event::ArbValues(values) = event {
        let format = arb_result(context.extensions, values, context.pf_reqs);
        assert(format matches Ok(f) ==> f.meets_depths(context.pf_reqs));
    }
}

proof fn lemma_step_from_nativereadback(context: Context, event: Event)
    requires
        context.well_formed(),
        context.stage is NativeReadBack,
    ensures
        context.next(event).0.well_formed(),
        context.next(event).0.pf_reqs == context.pf_reqs,
        context.next(event).0.opengl == context.opengl,
{
    if let Event::Descriptor(d) = event {
        let format = native_result(Some(d), context.pf_reqs);
        assert(format matches Ok(f) ==> f.meets_depths(context.pf_reqs));
    }
}

proof fn lemma_step_from_creating(context: Context, event: Event)
    requires
        context.well_formed(),
        context.stage is Creating,
    ensures
        context.next(event).0.well_formed(),
        context.next(event).0.pf_reqs == context.pf_reqs,
        context.next(event).0.opengl == context.opengl,
{
}

proof fn lemma_step_from_library(context: Context, event: Event)
    requires
        context.well_formed(),
        context.stage is Library,
    ensures
        context.next(event).0.well_formed(),
        context.next(event).0.pf_reqs == context.pf_reqs,
        context.next(event).0.opengl == context.opengl,
{
}

proof fn lemma_step_from_swapinterval(context: Context, event: Event)
    requires
        context.well_formed(),
        context.stage is SwapInterval,
    ensures
        context.next(event).0.well_formed(),
        context.next(event).0.pf_reqs == context.pf_reqs,
        context.next(event).0.opengl == context.opengl,
{
}

/// Every step keeps the making well formed, and keeps the request.
pub proof fn lemma_step_keeps_well_formed(context: Context, event: Event)
    requires
        context.well_formed(),
    ensures
        context.next(event).0.well_formed(),
        context.next(event).0.pf_reqs == context.pf_reqs,
        context.next(event).0.opengl == context.opengl,
{
    match context.stage {
        Stage::DeviceContext => lemma_step_from_devicecontext(context, event),
        Stage::ExtraFunctions => lemma_step_from_extrafunctions(context, event),
        Stage::Extensions => lemma_step_from_extensions(context, event),
        Stage::BoundFormat => lemma_step_from_boundformat(context, event),
        Stage::ArbChoice => lemma_step_from_arbchoice(context, event),
        Stage::NativeChoice => lemma_step_from_nativechoice(context, event),
        Stage::Binding => lemma_step_from_binding(context, event),
        Stage::ArbReadBack => lemma_step_from_arbreadback(context, event),
        Stage::NativeReadBack => lemma_step_from_nativereadback(context, event),
        Stage::Creating => lemma_step_from_creating(context, event),
        Stage::Library => lemma_step_from_library(context, event),
        Stage::SwapInterval => lemma_step_from_swapinterval(context, event),
        Stage::Finished(_) => {},
        Stage::Failed(_) => {},
    }
}

/// The making only ends well with a format that has every depth that is
/// required: with 24 depth bits and 8 alpha bits required, the format of the
/// context has at least those, whether it was read back from the driver or
/// from a descriptor.
pub proof fn lemma_finished_format_meets_depths(context: Context, event: Event, f: PixelFormat)
    requires
        context.well_formed(),
        context.next(event).1 == Action::Finish(f),
    ensures
        f.meets_depths(context.pf_reqs),
        context.pf_reqs.depth_bits == Some(24u8) ==> f.depth_bits >= 24,
        context.pf_reqs.alpha_bits == Some(8u8) ==> f.alpha_bits >= 8,
{
}

/// Every step brings the making further, until it has ended; so it ends
/// after at most ten steps.
pub proof fn lemma_step_makes_progress(context: Context, event: Event)
    ensures
        !context.stage.ended() ==> context.next(event).0.stage.rank() > context.stage.rank(),
        context.stage.ended() ==> context.next(event).0 == context,
        context.next(event).0.stage.rank() <= 10,
{
}

/// The action is to finish or to fail exactly when the making has ended.
pub proof fn lemma_last_action(context: Context, event: Event)
    ensures
        context.next(event).0.stage.ended() <==> (context.next(event).1 is Finish
            || context.next(event).1 is Fail),
        context.next(event).0.stage matches Stage::Finished(f) ==> context.next(event).1
            == Action::Finish(f),
        context.next(event).0.stage matches Stage::Failed(e) ==> context.next(event).1
            == Action::Fail(e),
{
}

/// A format is bound to the surface at most once, and only to a surface that
/// had none: the binding is only asked for in answer to a chooser, and a
/// chooser is only asked when the surface has reported that no format is
/// bound to it.
pub proof fn lemma_format_bound_once(context: Context, event: Event)
    ensures
        context.next(event).1 is SetPixelFormat ==> context.stage is ArbChoice
            || context.stage is NativeChoice,
        !context.stage.ended() && (context.next(event).0.stage is ArbChoice || context.next(
            event,
        ).0.stage is NativeChoice) ==> context.stage is BoundFormat && event
            == Event::BoundFormat(0),
{
}

/// A robustness that the caller depends on and the driver cannot give ends
/// the making as soon as the capability string is read, before any format is
/// looked for, whatever else the request asks.
pub proof fn lemma_robustness_comes_first(context: Context, ext: WglExtensions)
    requires
        context.stage is Extensions,
        context.opengl.robustness.is_mandatory(),
        !ext.offers_robustness(),
    ensures
        context.next(Event::Extensions(ext)).1 == Action::Fail(
            ContextError::Negotiation(NegotiationError::RobustnessUnsupported),
        ),
{
}

/// Without a driver that can set the swap interval, none is ever set.
pub proof fn lemma_swap_interval_needs_control(context: Context, event: Event)
    requires
        !context.stage.ended(),
        context.next(event).1 is SetSwapInterval,
    ensures
        context.extensions.swap_control,
        context.stage is Library,
        context.next(event).1 == Action::SetSwapInterval(wanted_interval(context.opengl)),
{
}

/// What is bound to a thread: a drawing surface and a context, by their
/// handles; both 0 where nothing is bound.
#[derive(Debug, Clone, Copy, PartialEq, Eq, Structural)]
pub struct CurrentContext {
    pub hdc: usize,
    pub hglrc: usize,
}

/// A guard for when you want to make the context current. Giving the guard
/// up restores the previously-current context.
#[derive(Debug, Clone, Copy, PartialEq, Eq, Structural)]
pub struct CurrentContextGuard {
    previous_hdc: usize,
    previous_hglrc: usize,
}

impl CurrentContextGuard {
    /// What was bound when the guard was made.
    pub closed spec fn previous(self) -> CurrentContext {
        CurrentContext { hdc: self.previous_hdc, hglrc: self.previous_hglrc }
    }

    /// Remembers `previous`, which was bound to the thread before another
    /// context was made current, if making it current worked: `result` is
    /// what the platform answered, 0 for failure, and `code` its last error.
    /// Where it did not work nothing has changed, and there is no guard.
    pub fn make_current(previous: CurrentContext, result: i32, code: u32) -> (guard: Result<
        CurrentContextGuard,
        CreationError,
    >)
        ensures
            result == 0 ==> guard == Err::<CurrentContextGuard, CreationError>(
                CreationError { call: NativeCall::SwapInterval, code },
            ),
            result != 0 ==> guard is Ok && guard->Ok_0.previous() == previous,
    {
        if result == 0 {
            return Err(CreationError { call: NativeCall::SwapInterval, code });
        }
        Ok(CurrentContextGuard { previous_hdc: previous.hdc, previous_hglrc: previous.hglrc })
    }

    /// What to bind to the thread when the guard is given up: what was bound
    /// when it was made.
    pub fn restore(&self) -> (previous: CurrentContext)
        ensures
            previous == self.previous(),
    {
        CurrentContext { hdc: self.previous_hdc, hglrc: self.previous_hglrc }
    }
}

/// Where the address of a function is taken from: the driver knows the
/// functions of extensions, and answers 0 for those of OpenGL 1.1, which the
/// system's library holds. So the driver is asked first, and the library only
/// where the driver has no answer; `None` says to ask the library.
pub fn get_proc_address(from_driver: usize) -> (address: Option<usize>)
    ensures
        address == if from_driver != 0 {
            Some(from_driver)
        } else {
            None::<usize>
        },
{
    if from_driver != 0 {
        Some(from_driver)
    } else {
        None
    }
}

/// A context can only be unbound from a thread that it is bound to: whether
/// unbinding is to be tried at all.
pub fn make_not_current(context: usize, current: CurrentContext) -> (bound: bool)
    ensures
        bound == (current.hglrc == context),
{
    current.hglrc == context
}

} // verus!
