use vstd::prelude::*;

verus! {

/// The state of the clipboard hook.
#[derive(Clone, Debug)]
pub struct UseClipboardReturn {
    /// Whether the clipboard API is available
    pub is_supported: bool,
    /// The text last copied (or the initial text)
    pub text: String,
    /// Whether the last copy succeeded
    pub copied: bool,
    /// The error of the last copy, if any
    pub error: Option<String>,
}

/// The error text as a character sequence.
pub open spec fn opt_view(e: Option<String>) -> Option<Seq<char>> {
    match e {
        Some(s) => Some(s@),
        None => None,
    }
}

/// The error when the clipboard API is missing.
pub open spec fn unsupported_message() -> Seq<char> {
    "Clipboard API not supported"@
}

/// The error when writing to the clipboard failed with `detail`.
pub open spec fn copy_failed_message(detail: Seq<char>) -> Seq<char> {
    "Failed to copy: "@ + detail
}

/// The error when reading the clipboard failed with `detail`.
pub open spec fn read_failed_message(detail: Seq<char>) -> Seq<char> {
    "Failed to read clipboard: "@ + detail
}

/// How an attempt to use the clipboard ended.
pub enum ClipboardOutcome {
    /// The clipboard API is not available
    Unsupported,
    /// The operation succeeded
    Done,
    /// The operation failed; the text describes the failure
    Failed(String),
}

impl Default for UseClipboardReturn {
    fn default() -> (r: Self)
        ensures
            !r.is_supported,
            r.text@ == Seq::<char>::empty(),
            !r.copied,
            r.error is None,
    {
        UseClipboardReturn { is_supported: false, text: String::new(), copied: false, error: None }
    }
}

impl UseClipboardReturn {
    /// The state at mount: the initial text (empty when not given), nothing copied.
    pub fn initial(is_supported: bool, initial_value: Option<String>) -> (r: Self)
        ensures
            r.is_supported == is_supported,
            r.text@ == match initial_value {
                Some(t) => t@,
                None => Seq::<char>::empty(),
            },
            !r.copied,
            r.error is None,
    {
        let text = match initial_value {
            Some(t) => t,
            None => String::new(),
        };
        UseClipboardReturn { is_supported, text, copied: false, error: None }
    }

    /// The state after an attempt to copy `text` that ended with `outcome`.
    pub fn after_copy(text: String, outcome: ClipboardOutcome) -> (r: Self)
        ensures
            r.text@ == text@,
            match outcome {
                ClipboardOutcome::Unsupported => {
                    &&& !r.is_supported
                    &&& !r.copied
                    &&& opt_view(r.error) == Some(unsupported_message())
                },
                ClipboardOutcome::Done => r.is_supported && r.copied && r.error is None,
                ClipboardOutcome::Failed(detail) => {
                    &&& r.is_supported
                    &&& !r.copied
                    &&& opt_view(r.error) == Some(copy_failed_message(detail@))
                },
            },
    {
        match outcome {
            ClipboardOutcome::Unsupported => UseClipboardReturn {
                is_supported: false,
                text,
                copied: false,
                error: Some("Clipboard API not supported".to_string()),
            },
            ClipboardOutcome::Done => UseClipboardReturn { is_supported: true, text, copied: true, error: None },
            ClipboardOutcome::Failed(detail) => {
                let mut msg = "Failed to copy: ".to_string();
                msg.append(detail.as_str());
                UseClipboardReturn { is_supported: true, text, copied: false, error: Some(msg) }
            },
        }
    }
}

/// The state of the clipboard-reading hook: the text last read and the last error.
#[derive(Clone, Debug)]
pub struct ClipboardReadState {
    pub text: String,
    pub error: Option<String>,
}

impl ClipboardReadState {
    /// Nothing read yet.
    pub fn new() -> (s: Self)
        ensures
            s.text@ == Seq::<char>::empty(),
            s.error is None,
    {
        ClipboardReadState { text: String::new(), error: None }
    }

    /// A read finished with `outcome`; `content` is the text it read when it
    /// succeeded. A successful read replaces the text and clears the error; a
    /// failed one keeps the text and records the error.
    pub fn after_read(&mut self, content: String, outcome: ClipboardOutcome)
        ensures
            match outcome {
                ClipboardOutcome::Unsupported => {
                    &&& final(self).text@ == old(self).text@
                    &&& opt_view(final(self).error) == Some(unsupported_message())
                },
                ClipboardOutcome::Done => final(self).text@ == content@ && final(self).error is None,
                ClipboardOutcome::Failed(detail) => {
                    &&& final(self).text@ == old(self).text@
                    &&& opt_view(final(self).error) == Some(read_failed_message(detail@))
                },
            },
    {
        match outcome {
            ClipboardOutcome::Unsupported => {
                self.error = Some("Clipboard API not supported".to_string());
            },
            ClipboardOutcome::Done => {
                self.text = content;
                self.error = None;
            },
            ClipboardOutcome::Failed(detail) => {
                let mut msg = "Failed to read clipboard: ".to_string();
                msg.append(detail.as_str());
                self.error = Some(msg);
            },
        }
    }
}

} // verus!
