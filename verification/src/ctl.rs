//! The control program: its command line, and what it prints.
use vstd::prelude::*;
use crate::decimal::{decimal, parse_i32_text, parse_unsigned, read_signed, read_unsigned, signed_text, unsigned_text, NumberError};
use crate::ipc::{IpcRequest, IpcResponse, OutputInfo, WindowInfo};
use crate::text::{begins_with, chars_of, same, starts_with, text_of};

verus! {

/// What the command line asks for.
#[derive(Clone, Copy, Debug, PartialEq, Eq, Structural)]
pub enum CtlCommand {
    /// Nothing: the usage is shown.
    Usage,
    /// Detect connected outputs.
    Output { lua: bool },
    /// List the compositor's outputs.
    Outputs,
    /// Manage windows.
    Window,
    /// Capture a screenshot.
    Screenshot,
    /// Show the help.
    Help,
    /// Something that there is not.
    Unknown,
}

/// Whether one of the arguments from `from` on asks for Lua.
pub open spec fn wants_lua(args: Seq<String>, from: int) -> bool {
    exists|i: int| from <= i < args.len() && ((#[trigger] args[i])@ == "--lua"@ || args[i]@ == "-l"@)
}

fn asks_for_lua(args: &Vec<String>, from: usize) -> (r: bool)
    requires
        from <= args@.len(),
    ensures
        r == wants_lua(args@, from as int),
{
    let mut i: usize = from;
    while i < args.len()
        invariant
            from <= i <= args@.len(),
            forall|k: int| from <= k < i ==> (#[trigger] args@[k])@ != "--lua"@ && args@[k]@ != "-l"@,
        decreases args@.len() - i,
    {
        if same(&args[i], "--lua") || same(&args[i], "-l") {
            return true;
        }
        i = i + 1;
    }
    false
}

pub open spec fn command_of(args: Seq<String>) -> CtlCommand {
    if args.len() == 0 {
        CtlCommand::Usage
    } else {
        let name = args[0]@;
        if name == "output"@ || name == "detect"@ {
            CtlCommand::Output { lua: wants_lua(args, 1) }
        } else if name == "outputs"@ {
            CtlCommand::Outputs
        } else if name == "window"@ || name == "windows"@ {
            CtlCommand::Window
        } else if name == "screenshot"@ {
            CtlCommand::Screenshot
        } else if name == "help"@ || name == "--help"@ || name == "-h"@ {
            CtlCommand::Help
        } else if name == "--lua"@ || name == "-l"@ {
            CtlCommand::Output { lua: true }
        } else {
            CtlCommand::Unknown
        }
    }
}

/// What the command line asks for. The bare flag for Lua detects outputs.
pub fn parse_command(args: &Vec<String>) -> (c: CtlCommand)
    ensures
        c == command_of(args@),
{
    if args.len() == 0 {
        return CtlCommand::Usage;
    }
    let name = &args[0];
    if same(name, "output") || same(name, "detect") {
        CtlCommand::Output { lua: asks_for_lua(args, 1) }
    } else if same(name, "outputs") {
        CtlCommand::Outputs
    } else if same(name, "window") || same(name, "windows") {
        CtlCommand::Window
    } else if same(name, "screenshot") {
        CtlCommand::Screenshot
    } else if same(name, "help") || same(name, "--help") || same(name, "-h") {
        CtlCommand::Help
    } else if same(name, "--lua") || same(name, "-l") {
        CtlCommand::Output { lua: true }
    } else {
        CtlCommand::Unknown
    }
}

/// Why a text is not a number, in words.
pub open spec fn number_error_text(e: NumberError) -> Seq<char> {
    match e {
        NumberError::Empty => "cannot parse integer from empty string"@,
        NumberError::InvalidDigit => "invalid digit found in string"@,
        NumberError::TooLarge => "number too large to fit in target type"@,
        NumberError::TooSmall => "number too small to fit in target type"@,
    }
}

/// Why a text is not a number, in words.
pub fn describe_number_error(e: NumberError) -> (s: String)
    ensures
        s@ == number_error_text(e),
{
    match e {
        NumberError::Empty => "cannot parse integer from empty string".to_owned(),
        NumberError::InvalidDigit => "invalid digit found in string".to_owned(),
        NumberError::TooLarge => "number too large to fit in target type".to_owned(),
        NumberError::TooSmall => "number too small to fit in target type".to_owned(),
    }
}

/// A text that may be missing.
pub open spec fn arg_at(args: Seq<String>, i: int) -> Option<Seq<char>> {
    if 0 <= i < args.len() {
        Some(args[i]@)
    } else {
        None
    }
}

/// The window id that an argument says, or what is wrong with it.
pub open spec fn id_of(arg: Option<Seq<char>>) -> Result<int, Seq<char>> {
    match arg {
        None => Err("missing window id"@),
        Some(text) => match read_unsigned(text, u64::MAX as int) {
            Ok(n) => Ok(n),
            Err(e) => Err("invalid window id: "@ + number_error_text(e)),
        },
    }
}

/// The number that an argument says, or what is wrong with it.
pub open spec fn number_of(arg: Option<Seq<char>>, name: Seq<char>) -> Result<int, Seq<char>> {
    match arg {
        None => Err("missing "@ + name),
        Some(text) => match read_signed(text, i32::MAX as int) {
            Ok(n) => Ok(n),
            Err(e) => Err("invalid "@ + name + ": "@ + number_error_text(e)),
        },
    }
}

pub open spec fn option_view(arg: Option<&String>) -> Option<Seq<char>> {
    match arg {
        Some(text) => Some(text@),
        None => None,
    }
}

/// The window id that an argument says.
pub fn parse_id(arg: Option<&String>) -> (r: Result<u64, String>)
    ensures
        match id_of(option_view(arg)) {
            Ok(n) => r matches Ok(id) && id == n,
            Err(message) => r matches Err(m) && m@ == message,
        },
{
    match arg {
        None => Err("missing window id".to_owned()),
        Some(text) => match parse_unsigned(text, u64::MAX) {
            Ok(n) => Ok(n),
            Err(e) => {
                let mut message = "invalid window id: ".to_owned();
                message.append(describe_number_error(e).as_str());
                Err(message)
            },
        },
    }
}

/// The number that an argument says; `name` is what it stands for.
pub fn parse_i32(arg: Option<&String>, name: &str) -> (r: Result<i32, String>)
    ensures
        match number_of(option_view(arg), name@) {
            Ok(n) => r matches Ok(v) && v == n,
            Err(message) => r matches Err(m) && m@ == message,
        },
{
    match arg {
        None => {
            let mut message = "missing ".to_owned();
            message.append(name);
            Err(message)
        },
        Some(text) => match parse_i32_text(text) {
            Ok(n) => Ok(n),
            Err(e) => {
                let mut message = "invalid ".to_owned();
                message.append(name);
                message.append(": ");
                message.append(describe_number_error(e).as_str());
                Err(message)
            },
        },
    }
}

fn arg(args: &Vec<String>, i: usize) -> (r: Option<&String>)
    ensures
        option_view(r) == arg_at(args@, i as int),
{
    if i < args.len() {
        Some(&args[i])
    } else {
        None
    }
}

/// What the window command asks for.
#[derive(Debug, PartialEq, Eq)]
pub enum WindowCommand {
    /// Nothing: its usage is shown.
    Usage,
    /// List the windows.
    List,
    /// Send this request.
    Send(IpcRequest),
    /// An argument is wrong.
    Fail(String),
    /// Something that there is not.
    Unknown,
}

/// Whether `c` is what the window command asks for, by its arguments.
pub open spec fn is_window_command(args: Seq<String>, c: WindowCommand) -> bool {
    if args.len() == 0 {
        c is Usage
    } else if args[0]@ == "list"@ {
        c is List
    } else if args[0]@ == "focus"@ || args[0]@ == "close"@ {
        match id_of(arg_at(args, 1)) {
            Err(message) => c matches WindowCommand::Fail(m) && m@ == message,
            Ok(n) => if args[0]@ == "focus"@ {
                c == WindowCommand::Send(IpcRequest::FocusWindow { id: n as u64 })
            } else {
                c == WindowCommand::Send(IpcRequest::CloseWindow { id: n as u64 })
            },
        }
    } else if args[0]@ == "move"@ || args[0]@ == "resize"@ {
        let moves = args[0]@ == "move"@;
        let first = number_of(
            arg_at(args, 2),
            if moves {
                "x"@
            } else {
                "width"@
            },
        );
        let second = number_of(
            arg_at(args, 3),
            if moves {
                "y"@
            } else {
                "height"@
            },
        );
        match id_of(arg_at(args, 1)) {
            Err(message) => c matches WindowCommand::Fail(m) && m@ == message,
            Ok(n) => match first {
                Err(message) => c matches WindowCommand::Fail(m) && m@ == message,
                Ok(a) => match second {
                    Err(message) => c matches WindowCommand::Fail(m) && m@ == message,
                    Ok(b) => if moves {
                        c == WindowCommand::Send(
                            IpcRequest::MoveWindow { id: n as u64, x: a as i32, y: b as i32 },
                        )
                    } else {
                        c == WindowCommand::Send(
                            IpcRequest::ResizeWindow { id: n as u64, w: a as i32, h: b as i32 },
                        )
                    },
                },
            },
        }
    } else {
        c is Unknown
    }
}

/// What the window command asks for; `args` are what follows it.
pub fn cmd_window(args: &Vec<String>) -> (c: WindowCommand)
    ensures
        is_window_command(args@, c),
{
    if args.len() == 0 {
        return WindowCommand::Usage;
    }
    let name = &args[0];
    if same(name, "list") {
        return WindowCommand::List;
    }
    let focus = same(name, "focus");
    let close = same(name, "close");
    let moves = same(name, "move");
    let resize = same(name, "resize");
    if !focus && !close && !moves && !resize {
        return WindowCommand::Unknown;
    }
    let id: u64 = match parse_id(arg(args, 1)) {
        Ok(id) => id,
        Err(message) => {
            return WindowCommand::Fail(message);
        },
    };
    if focus {
        return WindowCommand::Send(IpcRequest::FocusWindow { id });
    }
    if close {
        return WindowCommand::Send(IpcRequest::CloseWindow { id });
    }
    let (first_name, second_name) = if moves {
        ("x", "y")
    } else {
        ("width", "height")
    };
    let a: i32 = match parse_i32(arg(args, 2), first_name) {
        Ok(a) => a,
        Err(message) => {
            return WindowCommand::Fail(message);
        },
    };
    let b: i32 = match parse_i32(arg(args, 3), second_name) {
        Ok(b) => b,
        Err(message) => {
            return WindowCommand::Fail(message);
        },
    };
    if moves {
        WindowCommand::Send(IpcRequest::MoveWindow { id, x: a, y: b })
    } else {
        WindowCommand::Send(IpcRequest::ResizeWindow { id, w: a, h: b })
    }
}

/// An error message about what the compositor answered.
pub open spec fn answer_error(response: IpcResponse) -> Seq<char> {
    match response {
        IpcResponse::Error { message } => "compositor error: "@ + message@,
        _ => "unexpected response from compositor"@,
    }
}

fn describe_answer(response: &IpcResponse) -> (s: String)
    ensures
        s@ == answer_error(*response),
{
    match response {
        IpcResponse::Error { message } => {
            let mut text = "compositor error: ".to_owned();
            text.append(message);
            text
        },
        _ => "unexpected response from compositor".to_owned(),
    }
}

/// What the compositor replied to a request that was sent once, or why it could
/// not be asked.
pub type Reply = Result<IpcResponse, String>;

/// An error message about a reply; `lead` says what could not be done where the
/// compositor could not be asked.
pub open spec fn reply_error(reply: Reply, lead: Seq<char>) -> Seq<char> {
    match reply {
        Ok(response) => answer_error(response),
        Err(reason) => lead + reason@,
    }
}

fn describe_reply(reply: &Reply, lead: &str) -> (s: String)
    ensures
        s@ == reply_error(*reply, lead@),
{
    match reply {
        Ok(response) => describe_answer(response),
        Err(reason) => {
            let mut text = lead.to_owned();
            text.append(reason);
            text
        },
    }
}

/// Whether a request to a window was carried out, by the reply to it.
pub fn window_dispatch(reply: &Reply) -> (r: Result<(), String>)
    ensures
        r is Ok <==> *reply == Ok::<IpcResponse, String>(IpcResponse::Done),
        r matches Err(m) ==> m@ == reply_error(*reply, "Failed to send request: "@),
{
    match reply {
        Ok(IpcResponse::Done) => Ok(()),
        _ => Err(describe_reply(reply, "Failed to send request: ")),
    }
}

/// A text cut to at most `max` characters, the last of them an ellipsis where
/// something was cut.
pub open spec fn truncated(text: Seq<char>, max: int) -> Seq<char> {
    if text.len() <= max {
        text
    } else {
        text.take(max - 1).push('…')
    }
}

/// A text cut to at most `max` characters.
pub fn truncate(s: &str, max: usize) -> (r: String)
    requires
        max > 0 || s@.len() == 0,
    ensures
        r@ == truncated(s@, max as int),
{
    let c = chars_of(s);
    if c.len() <= max {
        return s.to_owned();
    }
    let mut out = text_of(&c, 0, max - 1);
    assert(c@.subrange(0, max - 1) == s@.take(max - 1));
    out.push('…');
    out
}

/// A cut text is never longer than asked for, and one that fits is not cut.
pub proof fn truncated_fits(text: Seq<char>, max: int)
    requires
        max > 0,
    ensures
        truncated(text, max).len() <= max,
        text.len() <= max ==> truncated(text, max) == text,
        text.len() > max ==> truncated(text, max).len() == max,
{
}

/// A text filled up with spaces to at least `width` characters.
pub open spec fn padded(text: Seq<char>, width: int) -> Seq<char> {
    if text.len() >= width {
        text
    } else {
        text + Seq::new((width - text.len()) as nat, |i: int| ' ')
    }
}

fn pad(text: String, width: usize) -> (r: String)
    ensures
        r@ == padded(text@, width as int),
{
    let mut r = text;
    let ghost before = text@;
    let c = chars_of(&r);
    let mut n: usize = c.len();
    assert(before + Seq::new(0, |i: int| ' ') =~= before);
    while n < width
        invariant
            c@.len() == before.len(),
            n >= c@.len(),
            n <= width || n == c@.len(),
            r@ == before + Seq::new((n - before.len()) as nat, |i: int| ' '),
        decreases width - n,
    {
        r.push(' ');
        n = n + 1;
        assert(r@ =~= before + Seq::new((n - before.len()) as nat, |i: int| ' '));
    }
    r
}

/// The texts of some lines.
pub open spec fn line_texts(lines: Seq<String>) -> Seq<Seq<char>> {
    lines.map_values(|s: String| s@)
}

fn add_line(lines: &mut Vec<String>, text: String)
    ensures
        line_texts(final(lines)@) == line_texts(old(lines)@).push(text@),
{
    let ghost before = lines@;
    lines.push(text);
    assert(line_texts(lines@) =~= line_texts(before).push(text@));
}

/// The place and size of a window in words; a dash where they are not known.
pub open spec fn geometry_text(geometry: Option<(i32, i32, i32, i32)>) -> Seq<char> {
    match geometry {
        Some((x, y, w, h)) => decimal(x as int) + ","@ + decimal(y as int) + " "@ + decimal(w as int)
            + "x"@ + decimal(h as int),
        None => "—"@,
    }
}

fn describe_geometry(geometry: Option<(i32, i32, i32, i32)>) -> (s: String)
    ensures
        s@ == geometry_text(geometry),
{
    match geometry {
        Some((x, y, w, h)) => {
            let mut s = signed_text(x as i64);
            s.append(",");
            s.append(signed_text(y as i64).as_str());
            s.append(" ");
            s.append(signed_text(w as i64).as_str());
            s.append("x");
            s.append(signed_text(h as i64).as_str());
            s
        },
        None => "—".to_owned(),
    }
}

/// A row of the list of windows.
pub open spec fn window_row(id: Seq<char>, title: Seq<char>, app_id: Seq<char>, geometry: Seq<char>) -> Seq<
    char,
> {
    padded(id, 6) + " "@ + padded(title, 24) + " "@ + padded(app_id, 24) + " "@ + geometry
}

fn make_row(id: String, title: String, app_id: String, geometry: &str) -> (s: String)
    ensures
        s@ == window_row(id@, title@, app_id@, geometry@),
{
    let mut s = pad(id, 6);
    s.append(" ");
    s.append(pad(title, 24).as_str());
    s.append(" ");
    s.append(pad(app_id, 24).as_str());
    s.append(" ");
    s.append(geometry);
    s
}

pub open spec fn window_line(w: WindowInfo) -> Seq<char> {
    window_row(
        decimal(w.id as int),
        truncated(w.title@, 24),
        truncated(w.app_id@, 24),
        geometry_text(w.geometry),
    )
}

/// The list of windows: a row of headings, and a row for each.
pub open spec fn window_lines(windows: Seq<WindowInfo>) -> Seq<Seq<char>> {
    if windows.len() == 0 {
        seq!["No windows."@]
    } else {
        seq![window_row("ID"@, "Title"@, "App ID"@, "Geometry"@)] + windows.map_values(
            |w: WindowInfo| window_line(w),
        )
    }
}

/// The list of windows, as it is printed.
pub fn window_list(reply: &Reply) -> (r: Result<Vec<String>, String>)
    ensures
        match reply {
            Ok(IpcResponse::Windows { windows }) => r matches Ok(lines) && line_texts(lines@)
                == window_lines(windows@),
            _ => r matches Err(m) && m@ == reply_error(*reply, "Failed to query windows: "@),
        },
{
    let windows = match reply {
        Ok(IpcResponse::Windows { windows }) => windows,
        _ => {
            return Err(describe_reply(reply, "Failed to query windows: "));
        },
    };
    let mut lines: Vec<String> = Vec::new();
    if windows.len() == 0 {
        add_line(&mut lines, "No windows.".to_owned());
        assert(line_texts(lines@) =~= window_lines(windows@));
        return Ok(lines);
    }
    add_line(
        &mut lines,
        make_row("ID".to_owned(), "Title".to_owned(), "App ID".to_owned(), "Geometry"),
    );
    let ghost head = line_texts(lines@);
    let ghost rows = windows@.map_values(|w: WindowInfo| window_line(w));
    assert(head =~= seq![window_row("ID"@, "Title"@, "App ID"@, "Geometry"@)]);
    assert(head + rows.take(0) =~= head);
    let mut i: usize = 0;
    while i < windows.len()
        invariant
            i <= windows@.len(),
            rows == windows@.map_values(|w: WindowInfo| window_line(w)),
            line_texts(lines@) == head + rows.take(i as int),
        decreases windows@.len() - i,
    {
        let w = &windows[i];
        let geometry = describe_geometry(w.geometry);
        let row = make_row(
            unsigned_text(w.id),
            truncate(&w.title, 24),
            truncate(&w.app_id, 24),
            &geometry,
        );
        add_line(&mut lines, row);
        i = i + 1;
        assert(head + rows.take(i as int) =~= (head + rows.take(i - 1)).push(rows[i - 1]));
    }
    assert(rows.take(i as int) == rows);
    Ok(lines)
}

/// The lines about one of the compositor's outputs, after a blank one that
/// parts it from the one before.
pub open spec fn output_info_lines(o: OutputInfo, scale: Seq<char>, at: int) -> Seq<Seq<char>> {
    (if at > 0 {
        seq![""@]
    } else {
        Seq::empty()
    }) + seq![
        "Output: "@ + o.name@,
        "  Resolution: "@ + decimal(o.width as int) + "x"@ + decimal(o.height as int),
        "  Scale: "@ + scale,
    ]
}

pub open spec fn outputs_lines(outputs: Seq<OutputInfo>, scales: Seq<String>, upto: int) -> Seq<
    Seq<char>,
>
    decreases upto,
{
    if upto <= 0 {
        Seq::empty()
    } else {
        outputs_lines(outputs, scales, upto - 1) + output_info_lines(
            outputs[upto - 1],
            scales[upto - 1]@,
            upto - 1,
        )
    }
}

/// The list of the compositor's outputs, as it is printed. `scales` are their
/// scales in words.
pub fn cmd_outputs(reply: &Reply, scales: &Vec<String>) -> (r: Result<Vec<String>, String>)
    requires
        reply matches Ok(IpcResponse::Outputs { outputs }) ==> outputs@.len() == scales@.len(),
    ensures
        match reply {
            Ok(IpcResponse::Outputs { outputs }) => r matches Ok(lines) && line_texts(lines@) == (
            if outputs@.len() == 0 {
                seq!["No outputs available."@]
            } else {
                outputs_lines(outputs@, scales@, outputs@.len() as int)
            }),
            _ => r matches Err(m) && m@ == reply_error(*reply, "Failed to query outputs: "@),
        },
{
    let outputs = match reply {
        Ok(IpcResponse::Outputs { outputs }) => outputs,
        _ => {
            return Err(describe_reply(reply, "Failed to query outputs: "));
        },
    };
    let mut lines: Vec<String> = Vec::new();
    if outputs.len() == 0 {
        add_line(&mut lines, "No outputs available.".to_owned());
        assert(line_texts(lines@) =~= seq!["No outputs available."@]);
        return Ok(lines);
    }
    let mut i: usize = 0;
    assert(line_texts(lines@) =~= Seq::<Seq<char>>::empty());
    while i < outputs.len()
        invariant
            i <= outputs@.len(),
            outputs@.len() == scales@.len(),
            line_texts(lines@) == outputs_lines(outputs@, scales@, i as int),
        decreases outputs@.len() - i,
    {
        let o = &outputs[i];
        let ghost before = line_texts(lines@);
        if i > 0 {
            add_line(&mut lines, "".to_owned());
        }
        let mut name = "Output: ".to_owned();
        name.append(&o.name);
        add_line(&mut lines, name);
        let mut size = "  Resolution: ".to_owned();
        size.append(unsigned_text(o.width as u64).as_str());
        size.append("x");
        size.append(unsigned_text(o.height as u64).as_str());
        add_line(&mut lines, size);
        let mut scale = "  Scale: ".to_owned();
        scale.append(&scales[i]);
        add_line(&mut lines, scale);
        assert(line_texts(lines@) =~= before + output_info_lines(
            *o,
            scales@[i as int]@,
            i as int,
        ));
        i = i + 1;
    }
    Ok(lines)
}

/// What the screenshot command asks for.
#[derive(Debug, PartialEq, Eq)]
pub enum ScreenshotCommand {
    /// Show its help.
    Help,
    /// Capture an output, or the first, into a file, or to the standard output.
    Capture { output: Option<String>, file: Option<String> },
    /// An argument is wrong.
    Fail(String),
}

/// What the options from `from` on make of those before.
pub open spec fn is_screenshot_command(
    args: Seq<String>,
    from: int,
    output: Option<String>,
    file: Option<String>,
    c: ScreenshotCommand,
) -> bool
    decreases args.len() - from,
{
    if from < 0 || from >= args.len() {
        c == (ScreenshotCommand::Capture { output, file })
    } else if args[from]@ == "--output"@ {
        if from + 1 < args.len() {
            is_screenshot_command(args, from + 2, Some(args[from + 1]), file, c)
        } else {
            c matches ScreenshotCommand::Fail(m) && m@ == "--output requires a name"@
        }
    } else if args[from]@ == "--file"@ {
        if from + 1 < args.len() {
            is_screenshot_command(args, from + 2, output, Some(args[from + 1]), c)
        } else {
            c matches ScreenshotCommand::Fail(m) && m@ == "--file requires a path"@
        }
    } else if args[from]@ == "--help"@ || args[from]@ == "-h"@ {
        c is Help
    } else {
        c matches ScreenshotCommand::Fail(m) && m@ == "unknown option: "@ + args[from]@
    }
}

/// What the screenshot command asks for; `args` are what follows it. Of an
/// option that stands twice the last counts.
pub fn cmd_screenshot(args: &Vec<String>) -> (c: ScreenshotCommand)
    ensures
        is_screenshot_command(args@, 0, None, None, c),
{
    let mut output: Option<String> = None;
    let mut file: Option<String> = None;
    let mut i: usize = 0;
    let count: usize = args.len();
    while i < count
        invariant
            i <= count == args@.len(),
            forall|c: ScreenshotCommand| #[trigger]
                is_screenshot_command(args@, i as int, output, file, c) ==> is_screenshot_command(
                    args@,
                    0,
                    None,
                    None,
                    c,
                ),
        decreases count - i,
    {
        if same(&args[i], "--output") {
            if i + 1 >= count {
                let r = ScreenshotCommand::Fail("--output requires a name".to_owned());
                assert(is_screenshot_command(args@, i as int, output, file, r));
                return r;
            }
            let ghost before = output;
            output = Some(args[i + 1].clone());
            proof {
                assert forall|c: ScreenshotCommand| #[trigger]
                    is_screenshot_command(
                        args@,
                        i + 2,
                        output,
                        file,
                        c,
                    ) implies is_screenshot_command(args@, 0, None, None, c) by {
                    assert(is_screenshot_command(args@, i as int, before, file, c));
                }
            }
            i = i + 2;
        } else if same(&args[i], "--file") {
            if i + 1 >= count {
                let r = ScreenshotCommand::Fail("--file requires a path".to_owned());
                assert(is_screenshot_command(args@, i as int, output, file, r));
                return r;
            }
            let ghost before = file;
            file = Some(args[i + 1].clone());
            proof {
                assert forall|c: ScreenshotCommand| #[trigger]
                    is_screenshot_command(
                        args@,
                        i + 2,
                        output,
                        file,
                        c,
                    ) implies is_screenshot_command(args@, 0, None, None, c) by {
                    assert(is_screenshot_command(args@, i as int, output, before, c));
                }
            }
            i = i + 2;
        } else if same(&args[i], "--help") || same(&args[i], "-h") {
            let r = ScreenshotCommand::Help;
            assert(is_screenshot_command(args@, i as int, output, file, r));
            return r;
        } else {
            let mut message = "unknown option: ".to_owned();
            message.append(&args[i]);
            let r = ScreenshotCommand::Fail(message);
            assert(is_screenshot_command(args@, i as int, output, file, r));
            return r;
        }
    }
    let r = ScreenshotCommand::Capture { output, file };
    assert(is_screenshot_command(args@, i as int, output, file, r));
    r
}

/// What becomes of a captured picture.
#[derive(Debug, PartialEq, Eq)]
pub enum PictureTarget {
    /// It is written to this file, with a word to the user.
    File { path: String, message: String },
    /// It is written to the standard output.
    Stdout,
    /// It is not written.
    Fail(String),
}

pub open spec fn terminal_refusal() -> Seq<char> {
    "refusing to write binary PNG to a terminal. Pipe into another program (e.g. `bakawm-ctl screenshot | swappy -`) or use --file <path>."@
}

pub open spec fn saved_message(width: u32, height: u32, path: Seq<char>) -> Seq<char> {
    "Screenshot ("@ + decimal(width as int) + "x"@ + decimal(height as int) + ") saved to "@ + path
}

/// What becomes of the compositor's answer to a screenshot: a picture goes to
/// the file asked for, or to the standard output unless that is a terminal.
pub fn place_picture(
    reply: &Reply,
    has_picture: bool,
    file: &Option<String>,
    terminal: bool,
) -> (t: PictureTarget)
    ensures
        match reply {
            Ok(IpcResponse::Screenshot { width, height, .. }) => if !has_picture {
                t matches PictureTarget::Fail(m) && m@ == "unexpected response from compositor"@
            } else {
                match file {
                    Some(path) => t matches PictureTarget::File { path: p, message } && p == *path
                        && message@ == saved_message(*width, *height, path@),
                    None => if terminal {
                        t matches PictureTarget::Fail(m) && m@ == terminal_refusal()
                    } else {
                        t is Stdout
                    },
                }
            },
            _ => t matches PictureTarget::Fail(m) && m@ == reply_error(
                *reply,
                "Failed to request screenshot: "@,
            ),
        },
{
    match reply {
        Ok(IpcResponse::Screenshot { width, height, .. }) => {
            if !has_picture {
                return PictureTarget::Fail("unexpected response from compositor".to_owned());
            }
            match file {
                Some(path) => {
                    let mut message = "Screenshot (".to_owned();
                    message.append(unsigned_text(*width as u64).as_str());
                    message.append("x");
                    message.append(unsigned_text(*height as u64).as_str());
                    message.append(") saved to ");
                    message.append(path);
                    PictureTarget::File { path: path.clone(), message }
                },
                None => {
                    if terminal {
                        PictureTarget::Fail(
                            "refusing to write binary PNG to a terminal. Pipe into another program (e.g. `bakawm-ctl screenshot | swappy -`) or use --file <path>.".to_owned(),
                        )
                    } else {
                        PictureTarget::Stdout
                    }
                },
            }
        },
        _ => PictureTarget::Fail(describe_reply(reply, "Failed to request screenshot: ")),
    }
}

/// A mode of a connected output.
#[derive(Debug, PartialEq, Eq)]
pub struct ModeInfo {
    pub width: u32,
    pub height: u32,
    pub refresh_mhz: u32,
    /// The refresh rate in hertz, with one decimal.
    pub refresh_tenths: String,
    pub preferred: bool,
}

/// A connected output.
#[derive(Debug, PartialEq, Eq)]
pub struct ConnectorInfo {
    pub name: String,
    pub make: String,
    pub model: String,
    pub modes: Vec<ModeInfo>,
    pub physical_size: Option<(u32, u32)>,
    pub connector_type: String,
}

/// A number of thousandths rounded to whole ones, halves to the even neighbour.
pub open spec fn rounded_thousandths(n: int) -> int {
    let q = n / 1000;
    let r = n % 1000;
    if r > 500 || (r == 500 && q % 2 == 1) {
        q + 1
    } else {
        q
    }
}

/// A refresh rate in whole hertz.
pub fn whole_hertz(mhz: u32) -> (hz: u32)
    ensures
        hz == rounded_thousandths(mhz as int),
{
    let q: u32 = mhz / 1000;
    let r: u32 = mhz % 1000;
    if r > 500 || (r == 500 && q % 2 == 1) {
        q + 1
    } else {
        q
    }
}

pub open spec fn mode_text(m: ModeInfo) -> Seq<char> {
    decimal(m.width as int) + "x"@ + decimal(m.height as int) + " @ "@ + decimal(
        rounded_thousandths(m.refresh_mhz as int),
    ) + " Hz"@ + (if m.preferred {
        " (preferred)"@
    } else {
        ""@
    })
}

fn describe_mode(lead: &str, m: &ModeInfo) -> (s: String)
    ensures
        s@ == lead@ + mode_text(*m),
{
    let mut s = lead.to_owned();
    s.append(unsigned_text(m.width as u64).as_str());
    s.append("x");
    s.append(unsigned_text(m.height as u64).as_str());
    s.append(" @ ");
    s.append(unsigned_text(whole_hertz(m.refresh_mhz) as u64).as_str());
    s.append(" Hz");
    if m.preferred {
        s.append(" (preferred)");
    } else {
        s.append("");
    }
    assert(s@ =~= lead@ + mode_text(*m));
    s
}

pub open spec fn mode_lines(lead: Seq<char>, modes: Seq<ModeInfo>) -> Seq<Seq<char>> {
    modes.map_values(|m: ModeInfo| lead + mode_text(m))
}

fn add_modes(lines: &mut Vec<String>, lead: &str, modes: &Vec<ModeInfo>)
    ensures
        line_texts(final(lines)@) == line_texts(old(lines)@) + mode_lines(lead@, modes@),
{
    let ghost before = line_texts(lines@);
    let ghost all = mode_lines(lead@, modes@);
    let mut i: usize = 0;
    assert(before + all.take(0) =~= before);
    while i < modes.len()
        invariant
            i <= modes@.len(),
            all == mode_lines(lead@, modes@),
            line_texts(lines@) == before + all.take(i as int),
        decreases modes@.len() - i,
    {
        add_line(lines, describe_mode(lead, &modes[i]));
        i = i + 1;
        assert(before + all.take(i as int) =~= (before + all.take(i - 1)).push(all[i - 1]));
    }
    assert(all.take(i as int) == all);
}

/// The line about the size of a screen, where that is known.
pub open spec fn size_lines(lead: Seq<char>, size: Option<(u32, u32)>) -> Seq<Seq<char>> {
    match size {
        Some((w, h)) => if w > 0 && h > 0 {
            seq![
                lead + "Physical size: "@ + decimal(w as int) + "x"@ + decimal(h as int) + " mm"@,
            ]
        } else {
            Seq::empty()
        },
        None => Seq::empty(),
    }
}

fn add_size(lines: &mut Vec<String>, lead: &str, size: Option<(u32, u32)>)
    ensures
        line_texts(final(lines)@) == line_texts(old(lines)@) + size_lines(lead@, size),
{
    let ghost before = line_texts(lines@);
    match size {
        Some((w, h)) => {
            if w > 0 && h > 0 {
                let mut s = lead.to_owned();
                s.append("Physical size: ");
                s.append(unsigned_text(w as u64).as_str());
                s.append("x");
                s.append(unsigned_text(h as u64).as_str());
                s.append(" mm");
                add_line(lines, s);
            }
        },
        None => {},
    }
    assert(line_texts(lines@) =~= before + size_lines(lead@, size));
}

/// The lines about one connected output, for people.
pub open spec fn human_lines(c: ConnectorInfo, at: int) -> Seq<Seq<char>> {
    (if at > 0 {
        seq![""@]
    } else {
        Seq::empty()
    }) + seq![
        "Output: "@ + c.name@,
        "  Type: "@ + c.connector_type@,
        "  Make:  "@ + c.make@,
        "  Model: "@ + c.model@,
    ] + size_lines("  "@, c.physical_size) + seq!["  Modes:"@] + mode_lines("    "@, c.modes@)
}

pub open spec fn all_human_lines(c: Seq<ConnectorInfo>, upto: int) -> Seq<Seq<char>>
    decreases upto,
{
    if upto <= 0 {
        Seq::empty()
    } else {
        all_human_lines(c, upto - 1) + human_lines(c[upto - 1], upto - 1)
    }
}

fn titled(title: &str, text: &str) -> (s: String)
    ensures
        s@ == title@ + text@,
{
    let mut s = title.to_owned();
    s.append(text);
    s
}

/// The connected outputs, for people.
pub fn print_human_output(connectors: &Vec<ConnectorInfo>) -> (lines: Vec<String>)
    ensures
        line_texts(lines@) == all_human_lines(connectors@, connectors@.len() as int) + seq![
            ""@,
            "Tip: Use --lua or -l flag to output in Lua config format."@,
        ],
{
    let mut lines: Vec<String> = Vec::new();
    let mut i: usize = 0;
    assert(line_texts(lines@) =~= Seq::<Seq<char>>::empty());
    while i < connectors.len()
        invariant
            i <= connectors@.len(),
            line_texts(lines@) == all_human_lines(connectors@, i as int),
        decreases connectors@.len() - i,
    {
        let c = &connectors[i];
        let ghost before = line_texts(lines@);
        if i > 0 {
            add_line(&mut lines, "".to_owned());
        }
        add_line(&mut lines, titled("Output: ", &c.name));
        add_line(&mut lines, titled("  Type: ", &c.connector_type));
        add_line(&mut lines, titled("  Make:  ", &c.make));
        add_line(&mut lines, titled("  Model: ", &c.model));
        add_size(&mut lines, "  ", c.physical_size);
        add_line(&mut lines, "  Modes:".to_owned());
        add_modes(&mut lines, "    ", &c.modes);
        assert(line_texts(lines@) =~= before + human_lines(*c, i as int));
        i = i + 1;
    }
    let ghost before = line_texts(lines@);
    add_line(&mut lines, "".to_owned());
    add_line(&mut lines, "Tip: Use --lua or -l flag to output in Lua config format.".to_owned());
    assert(line_texts(lines@) =~= before + seq![
        ""@,
        "Tip: Use --lua or -l flag to output in Lua config format."@,
    ]);
    lines
}

/// Whether the mode at `at` is the one to configure: the first preferred one,
/// else the first.
pub open spec fn is_chosen_mode(modes: Seq<ModeInfo>, at: int) -> bool {
    &&& 0 <= at < modes.len()
    &&& if exists|i: int| 0 <= i < modes.len() && (#[trigger] modes[i]).preferred {
        modes[at].preferred && forall|i: int| 0 <= i < at ==> !(#[trigger] modes[i]).preferred
    } else {
        at == 0
    }
}

/// The mode to configure, if there is any.
pub fn choose_mode(modes: &Vec<ModeInfo>) -> (r: Option<usize>)
    ensures
        match r {
            Some(i) => is_chosen_mode(modes@, i as int),
            None => modes@.len() == 0,
        },
{
    let mut i: usize = 0;
    while i < modes.len()
        invariant
            i <= modes@.len(),
            forall|k: int| 0 <= k < i ==> !(#[trigger] modes@[k]).preferred,
        decreases modes@.len() - i,
    {
        if modes[i].preferred {
            return Some(i);
        }
        i = i + 1;
    }
    if modes.len() > 0 {
        Some(0)
    } else {
        None
    }
}

/// A refresh rate as it is configured: whole hertz without decimals.
pub open spec fn refresh_setting(m: ModeInfo) -> Seq<char> {
    if m.refresh_mhz % 1000 == 0 {
        decimal(m.refresh_mhz as int / 1000)
    } else {
        m.refresh_tenths@
    }
}

pub open spec fn mode_setting(m: ModeInfo) -> Seq<char> {
    "        mode = { width = "@ + decimal(m.width as int) + ", height = "@ + decimal(m.height as int)
        + ", refresh = "@ + refresh_setting(m) + " },"@
}

fn describe_mode_setting(m: &ModeInfo) -> (s: String)
    ensures
        s@ == mode_setting(*m),
{
    let mut s = "        mode = { width = ".to_owned();
    s.append(unsigned_text(m.width as u64).as_str());
    s.append(", height = ");
    s.append(unsigned_text(m.height as u64).as_str());
    s.append(", refresh = ");
    if m.refresh_mhz % 1000 == 0 {
        s.append(unsigned_text((m.refresh_mhz / 1000) as u64).as_str());
    } else {
        s.append(&m.refresh_tenths);
    }
    s.append(" },");
    s
}

/// The lines about the mode to configure.
pub open spec fn chosen_lines(modes: Seq<ModeInfo>, at: Option<usize>) -> Seq<Seq<char>> {
    match at {
        Some(i) => seq![mode_setting(modes[i as int])],
        None => Seq::empty(),
    }
}

/// The lines about one connected output, for the configuration; `at` is the
/// mode to configure, and `last` tells whether it is the last.
pub open spec fn lua_lines(c: ConnectorInfo, at: Option<usize>, last: bool) -> Seq<Seq<char>> {
    seq!["    {"@, "        name = \""@ + c.name@ + "\","@] + chosen_lines(c.modes@, at)
        + size_lines("        -- "@, c.physical_size) + seq![
        "        -- Make: "@ + c.make@ + ", Model: "@ + c.model@,
    ] + (if c.modes@.len() > 1 {
        seq!["        -- Available modes:"@] + mode_lines("        --   "@, c.modes@)
    } else {
        Seq::empty()
    }) + seq![
        if last {
            "    }"@
        } else {
            "    },"@
        },
    ]
}

pub open spec fn all_lua_lines(c: Seq<ConnectorInfo>, chosen: Seq<Option<usize>>, upto: int) -> Seq<
    Seq<char>,
>
    decreases upto,
{
    if upto <= 0 {
        Seq::empty()
    } else {
        all_lua_lines(c, chosen, upto - 1) + lua_lines(
            c[upto - 1],
            chosen[upto - 1],
            upto == c.len(),
        )
    }
}

/// The modes to configure, one for each output that has any.
pub open spec fn are_chosen(c: Seq<ConnectorInfo>, chosen: Seq<Option<usize>>) -> bool {
    &&& chosen.len() == c.len()
    &&& forall|i: int|
        0 <= i < c.len() ==> match #[trigger] chosen[i] {
            Some(at) => is_chosen_mode(c[i].modes@, at as int),
            None => c[i].modes@.len() == 0,
        }
}

fn add_lua_lines(lines: &mut Vec<String>, c: &ConnectorInfo, at: Option<usize>, last: bool)
    requires
        at matches Some(i) ==> i < c.modes@.len(),
    ensures
        line_texts(final(lines)@) == line_texts(old(lines)@) + lua_lines(*c, at, last),
{
    let ghost before = line_texts(lines@);
    add_line(lines, "    {".to_owned());
    let mut name = "        name = \"".to_owned();
    name.append(&c.name);
    name.append("\",");
    add_line(lines, name);
    match at {
        Some(i) => {
            add_line(lines, describe_mode_setting(&c.modes[i]));
        },
        None => {},
    }
    let ghost one = line_texts(lines@);
    assert(one =~= before + (seq!["    {"@, "        name = \""@ + c.name@ + "\","@] + chosen_lines(
        c.modes@,
        at,
    )));
    add_size(lines, "        -- ", c.physical_size);
    let mut make = "        -- Make: ".to_owned();
    make.append(&c.make);
    make.append(", Model: ");
    make.append(&c.model);
    add_line(lines, make);
    if c.modes.len() > 1 {
        add_line(lines, "        -- Available modes:".to_owned());
        add_modes(lines, "        --   ", &c.modes);
    }
    if last {
        add_line(lines, "    }".to_owned());
    } else {
        add_line(lines, "    },".to_owned());
    }
    assert(line_texts(lines@) =~= before + lua_lines(*c, at, last));
}

/// The connected outputs, for the configuration.
pub fn print_lua_output(connectors: &Vec<ConnectorInfo>) -> (lines: Vec<String>)
    ensures
        exists|chosen: Seq<Option<usize>>| #[trigger]
            are_chosen(connectors@, chosen) && line_texts(lines@) == seq![
                "-- Auto-detected output configuration for bakawm"@,
                "-- Copy the relevant entries into your config.lua"@,
                ""@,
                "outputs = {"@,
            ] + all_lua_lines(connectors@, chosen, connectors@.len() as int) + (
            if connectors@.len() == 0 {
                seq![""@, "},"@]
            } else {
                seq!["},"@]
            }),
{
    let mut lines: Vec<String> = Vec::new();
    add_line(&mut lines, "-- Auto-detected output configuration for bakawm".to_owned());
    add_line(&mut lines, "-- Copy the relevant entries into your config.lua".to_owned());
    add_line(&mut lines, "".to_owned());
    add_line(&mut lines, "outputs = {".to_owned());
    let ghost head = seq![
        "-- Auto-detected output configuration for bakawm"@,
        "-- Copy the relevant entries into your config.lua"@,
        ""@,
        "outputs = {"@,
    ];
    assert(line_texts(lines@) =~= head);
    let mut chosen: Vec<Option<usize>> = Vec::new();
    let mut k: usize = 0;
    while k < connectors.len()
        invariant
            k <= connectors@.len(),
            chosen@.len() == k,
            forall|i: int|
                0 <= i < k ==> match #[trigger] chosen@[i] {
                    Some(at) => is_chosen_mode(connectors@[i].modes@, at as int),
                    None => connectors@[i].modes@.len() == 0,
                },
        decreases connectors@.len() - k,
    {
        chosen.push(choose_mode(&connectors[k].modes));
        k = k + 1;
    }
    assert(are_chosen(connectors@, chosen@));
    let mut i: usize = 0;
    assert(head + Seq::<Seq<char>>::empty() =~= head);
    while i < connectors.len()
        invariant
            i <= connectors@.len(),
            are_chosen(connectors@, chosen@),
            line_texts(lines@) == head + all_lua_lines(connectors@, chosen@, i as int),
        decreases connectors@.len() - i,
    {
        let ghost before = line_texts(lines@);
        assert(match chosen@[i as int] {
            Some(at) => is_chosen_mode(connectors@[i as int].modes@, at as int),
            None => connectors@[i as int].modes@.len() == 0,
        });
        add_lua_lines(&mut lines, &connectors[i], chosen[i], i + 1 == connectors.len());
        assert(line_texts(lines@) =~= head + (all_lua_lines(connectors@, chosen@, i as int)
            + lua_lines(connectors@[i as int], chosen@[i as int], i + 1 == connectors@.len())));
        i = i + 1;
    }
    let ghost body = line_texts(lines@);
    if connectors.len() == 0 {
        add_line(&mut lines, "".to_owned());
    }
    add_line(&mut lines, "},".to_owned());
    assert(line_texts(lines@) =~= body + (if connectors@.len() == 0 {
        seq![""@, "},"@]
    } else {
        seq!["},"@]
    }));
    lines
}

/// The name of a connector: its kind and its number.
pub fn connector_name(interface: &str, number: u32) -> (s: String)
    ensures
        s@ == interface@ + "-"@ + decimal(number as int),
{
    let mut s = interface.to_owned();
    s.append("-");
    s.append(unsigned_text(number as u64).as_str());
    s
}

/// A name that the screen tells, or a word for one that it does not.
pub fn or_unknown(name: Option<String>) -> (s: String)
    ensures
        match name {
            Some(n) => s == n,
            None => s@ == "Unknown"@,
        },
{
    match name {
        Some(n) => n,
        None => "Unknown".to_owned(),
    }
}

/// The seat to look for screens on.
pub fn seat_name(seat: Option<String>) -> (s: String)
    ensures
        match seat {
            Some(n) => s == n,
            None => s@ == "seat0"@,
        },
{
    match seat {
        Some(n) => n,
        None => "seat0".to_owned(),
    }
}

/// Whether some texts hold one.
pub open spec fn holds_text(texts: Seq<String>, text: Seq<char>) -> bool {
    exists|i: int| 0 <= i < texts.len() && (#[trigger] texts[i])@ == text
}

fn has_text(texts: &Vec<String>, text: &str) -> (r: bool)
    ensures
        r == holds_text(texts@, text@),
{
    let mut i: usize = 0;
    while i < texts.len()
        invariant
            i <= texts@.len(),
            forall|k: int| 0 <= k < i ==> (#[trigger] texts@[k])@ != text@,
        decreases texts@.len() - i,
    {
        if same(&texts[i], text) {
            return true;
        }
        i = i + 1;
    }
    false
}

/// The paths of `start`, and the first `upto` of `more` that are not yet there.
pub open spec fn without_repeats(start: Seq<String>, more: Seq<String>, upto: int) -> Seq<String>
    decreases upto,
{
    if upto <= 0 {
        start
    } else {
        let before = without_repeats(start, more, upto - 1);
        if holds_text(before, more[upto - 1]@) {
            before
        } else {
            before.push(more[upto - 1])
        }
    }
}

/// The devices to look for screens on: the one that was named, else the primary
/// one and then the others, each once.
pub fn gpu_paths(named: &Option<String>, primary: &Option<String>, all: &Vec<String>) -> (r: Vec<
    String,
>)
    ensures
        r@ == (match named {
            Some(path) => seq![*path],
            None => without_repeats(
                match primary {
                    Some(path) => seq![*path],
                    None => Seq::empty(),
                },
                all@,
                all@.len() as int,
            ),
        }),
{
    let mut paths: Vec<String> = Vec::new();
    match named {
        Some(path) => {
            paths.push(path.clone());
            assert(paths@ =~= seq![*path]);
            return paths;
        },
        None => {},
    }
    match primary {
        Some(path) => {
            paths.push(path.clone());
        },
        None => {},
    }
    let ghost start = paths@;
    assert(start =~= (match primary {
        Some(path) => seq![*path],
        None => Seq::empty(),
    }));
    let mut i: usize = 0;
    while i < all.len()
        invariant
            i <= all@.len(),
            paths@ == without_repeats(start, all@, i as int),
        decreases all@.len() - i,
    {
        if !has_text(&paths, &all[i]) {
            paths.push(all[i].clone());
        }
        i = i + 1;
    }
    paths
}

/// No device is looked at twice, and none is left out.
pub proof fn every_device_once(start: Seq<String>, more: Seq<String>, upto: int, k: int)
    requires
        start.len() <= 1,
        0 <= upto <= more.len(),
    ensures
        forall|i: int, j: int|
            0 <= i < j < without_repeats(start, more, upto).len() ==> (#[trigger] without_repeats(
                start,
                more,
                upto,
            )[i])@ != (#[trigger] without_repeats(start, more, upto)[j])@,
        0 <= k < upto ==> holds_text(without_repeats(start, more, upto), more[k]@),
    decreases upto,
{
    if upto > 0 {
        every_device_once(start, more, upto - 1, k);
        let before = without_repeats(start, more, upto - 1);
        let after = without_repeats(start, more, upto);
        if !holds_text(before, more[upto - 1]@) {
            assert(after[before.len() as int]@ == more[upto - 1]@);
            if 0 <= k < upto - 1 {
                let i = choose|i: int| 0 <= i < before.len() && (#[trigger] before[i])@ == more[k]@;
                assert(after[i]@ == more[k]@);
            }
        }
    }
}

/// Whether a file of the device directory is a graphics card.
pub fn is_card(name: &str) -> (r: bool)
    ensures
        r == begins_with(name@, "card"@),
{
    starts_with(name, "card")
}

/// The connectors that the first `upto` scans found, in their order; a scan that
/// failed found none.
pub open spec fn joined_scans(scans: Seq<Option<Vec<ConnectorInfo>>>, upto: int) -> Seq<ConnectorInfo>
    decreases upto,
{
    if upto <= 0 {
        Seq::empty()
    } else {
        joined_scans(scans, upto - 1) + (match scans[upto - 1] {
            Some(found) => found@,
            None => Seq::empty(),
        })
    }
}

/// The connectors that all scans found.
pub fn join_scans(scans: Vec<Option<Vec<ConnectorInfo>>>) -> (r: Vec<ConnectorInfo>)
    ensures
        r@ == joined_scans(scans@, scans@.len() as int),
{
    let mut scans = scans;
    let ghost all = scans@;
    let mut rest: Vec<ConnectorInfo> = Vec::new();
    assert(joined_scans(all, all.len() as int) + rest@ =~= joined_scans(all, all.len() as int));
    while scans.len() > 0
        invariant
            scans@.len() <= all.len(),
            scans@ == all.take(scans@.len() as int),
            joined_scans(all, scans@.len() as int) + rest@ == joined_scans(all, all.len() as int),
        decreases scans@.len(),
    {
        let ghost n = scans@.len() as int;
        let ghost after = rest@;
        match scans.pop() {
            Some(Some(found)) => {
                let mut found = found;
                let ghost head = found@;
                found.append(&mut rest);
                rest = found;
                assert(joined_scans(all, n - 1) + head + after =~= joined_scans(all, n - 1) + (head
                    + after));
            },
            _ => {
                assert(joined_scans(all, n - 1) + Seq::<ConnectorInfo>::empty() =~= joined_scans(
                    all,
                    n - 1,
                ));
            },
        }
        assert(scans@ =~= all.take(n - 1));
    }
    assert(rest@ =~= joined_scans(all, all.len() as int));
    rest
}

/// Whether to look at all graphics cards: the devices of the seat gave nothing.
pub fn needs_card_scan(found: usize) -> (r: bool)
    ensures
        r == (found == 0),
{
    found == 0
}

/// A command is the one of its name; the flags for Lua ask for it by themselves,
/// and behind the command for outputs.
pub proof fn commands_go_by_their_names(args: Seq<String>)
    ensures
        args.len() == 0 <==> command_of(args) is Usage,
        args.len() > 0 ==> {
            let name = args[0]@;
            &&& name == "output"@ || name == "detect"@ ==> (
            command_of(args) matches CtlCommand::Output { lua } && (lua <==> exists|i: int|
                1 <= i < args.len() && ((#[trigger] args[i])@ == "--lua"@ || args[i]@ == "-l"@)))
            &&& name == "outputs"@ <==> command_of(args) is Outputs
            &&& name == "window"@ || name == "windows"@ <==> command_of(args) is Window
            &&& name == "screenshot"@ <==> command_of(args) is Screenshot
            &&& name == "help"@ || name == "--help"@ || name == "-h"@ <==> command_of(args) is Help
            &&& name == "--lua"@ || name == "-l"@ ==> command_of(args) == (CtlCommand::Output {
                lua: true,
            })
            &&& command_of(args) is Output ==> name == "output"@ || name == "detect"@ || name
                == "--lua"@ || name == "-l"@
        },
{
    reveal_strlit("output");
    reveal_strlit("detect");
    reveal_strlit("outputs");
    reveal_strlit("window");
    reveal_strlit("windows");
    reveal_strlit("screenshot");
    reveal_strlit("help");
    reveal_strlit("--help");
    reveal_strlit("-h");
    reveal_strlit("--lua");
    reveal_strlit("-l");
    assert("output"@.len() == 6);
    assert("detect"@.len() == 6);
    assert("outputs"@.len() == 7);
    assert("window"@.len() == 6);
    assert("windows"@.len() == 7);
    assert("screenshot"@.len() == 10);
    assert("help"@.len() == 4);
    assert("--help"@.len() == 6);
    assert("-h"@.len() == 2);
    assert("--lua"@.len() == 5);
    assert("-l"@.len() == 2);
    assert("output"@[0] != "detect"@[0]);
    assert("output"@[0] != "window"@[0]);
    assert("output"@[0] != "--help"@[0]);
    assert("detect"@[0] != "window"@[0]);
    assert("detect"@[0] != "--help"@[0]);
    assert("outputs"@[0] != "windows"@[0]);
    assert("window"@[0] != "--help"@[0]);
    assert("-h"@[1] != "-l"@[1]);
}

/// A command on a window is sent with the window and the numbers that were given,
/// in their order: a place for moving, a size for resizing.
pub proof fn window_commands_send_what_was_given(args: Seq<String>, c: WindowCommand, n: u64, a: i32, b: i32)
    requires
        is_window_command(args, c),
    ensures
        args.len() == 0 ==> c is Usage,
        args.len() > 0 && args[0]@ == "list"@ ==> c is List,
        args.len() >= 2 && args[0]@ == "focus"@ && read_unsigned(args[1]@, u64::MAX as int) == Ok::<
            int,
            NumberError,
        >(n as int) ==> c == WindowCommand::Send(IpcRequest::FocusWindow { id: n }),
        args.len() >= 2 && args[0]@ == "close"@ && read_unsigned(args[1]@, u64::MAX as int) == Ok::<
            int,
            NumberError,
        >(n as int) ==> c == WindowCommand::Send(IpcRequest::CloseWindow { id: n }),
        args.len() >= 4 && read_unsigned(args[1]@, u64::MAX as int) == Ok::<int, NumberError>(
            n as int,
        ) && read_signed(args[2]@, i32::MAX as int) == Ok::<int, NumberError>(a as int)
            && read_signed(args[3]@, i32::MAX as int) == Ok::<int, NumberError>(b as int) ==> {
            &&& args[0]@ == "move"@ ==> c == WindowCommand::Send(
                IpcRequest::MoveWindow { id: n, x: a, y: b },
            )
            &&& args[0]@ == "resize"@ ==> c == WindowCommand::Send(
                IpcRequest::ResizeWindow { id: n, w: a, h: b },
            )
        },
        args.len() == 1 && (args[0]@ == "focus"@ || args[0]@ == "close"@ || args[0]@ == "move"@
            || args[0]@ == "resize"@) ==> (c matches WindowCommand::Fail(m) && m@
            == "missing window id"@),
        args.len() > 0 && args[0]@ != "list"@ && args[0]@ != "focus"@ && args[0]@ != "close"@
            && args[0]@ != "move"@ && args[0]@ != "resize"@ ==> c is Unknown,
{
    reveal_strlit("list");
    reveal_strlit("focus");
    reveal_strlit("close");
    reveal_strlit("move");
    reveal_strlit("resize");
    assert("list"@.len() == 4);
    assert("focus"@.len() == 5);
    assert("close"@.len() == 5);
    assert("move"@.len() == 4);
    assert("resize"@.len() == 6);
    assert("list"@[0] != "move"@[0]);
    assert("focus"@[0] != "close"@[0]);
}

/// A picture is of the output and goes to the file that were named, in whichever
/// order; without arguments it is of the first output and goes to the standard
/// output.
pub proof fn pictures_are_of_what_was_named(args: Seq<String>, c: ScreenshotCommand)
    requires
        is_screenshot_command(args, 0, None, None, c),
    ensures
        args.len() == 0 ==> c == (ScreenshotCommand::Capture { output: None, file: None }),
        args.len() == 2 && args[0]@ == "--output"@ ==> c == (ScreenshotCommand::Capture {
            output: Some(args[1]),
            file: None,
        }),
        args.len() == 2 && args[0]@ == "--file"@ ==> c == (ScreenshotCommand::Capture {
            output: None,
            file: Some(args[1]),
        }),
        args.len() == 4 && args[0]@ == "--output"@ && args[2]@ == "--file"@ ==> c == (
        ScreenshotCommand::Capture { output: Some(args[1]), file: Some(args[3]) }),
        args.len() == 4 && args[0]@ == "--file"@ && args[2]@ == "--output"@ ==> c == (
        ScreenshotCommand::Capture { output: Some(args[3]), file: Some(args[1]) }),
        args.len() > 0 && (args[0]@ == "--help"@ || args[0]@ == "-h"@) ==> c is Help,
        args.len() == 1 && (args[0]@ == "--output"@ || args[0]@ == "--file"@) ==> c is Fail,
{
    reveal_with_fuel(is_screenshot_command, 4);
    reveal_strlit("--output");
    reveal_strlit("--file");
    reveal_strlit("--help");
    reveal_strlit("-h");
    assert("--output"@.len() == 8);
    assert("--file"@.len() == 6);
    assert("--help"@.len() == 6);
    assert("-h"@.len() == 2);
    assert("--file"@[2] != "--help"@[2]);
}

/// A text is filled up with spaces behind it, to the width and no further.
pub proof fn texts_are_filled_up(text: Seq<char>, width: int)
    ensures
        text.len() >= width ==> padded(text, width) == text,
        text.len() < width ==> padded(text, width).len() == width && padded(text, width).take(
            text.len() as int,
        ) == text && forall|i: int| text.len() <= i < width ==> padded(text, width)[i] == ' ',
{
    if text.len() < width {
        assert(padded(text, width).take(text.len() as int) =~= text);
    }
}

/// A list of windows has a line for each, in their order, below its heading; the
/// number stands first, then the title, the application and the place.
pub proof fn windows_are_listed_in_order(windows: Seq<WindowInfo>, i: int)
    requires
        0 <= i < windows.len(),
    ensures
        window_lines(windows).len() == windows.len() + 1,
        window_lines(windows)[i + 1] == padded(decimal(windows[i].id as int), 6) + " "@ + padded(
            truncated(windows[i].title@, 24),
            24,
        ) + " "@ + padded(truncated(windows[i].app_id@, 24), 24) + " "@ + geometry_text(
            windows[i].geometry,
        ),
        windows[i].geometry matches Some((x, y, w, h)) ==> geometry_text(windows[i].geometry)
            == decimal(x as int) + ","@ + decimal(y as int) + " "@ + decimal(w as int) + "x"@
            + decimal(h as int),
{
}

/// Rates are rounded to the nearest whole number, and a half to the even one.
pub proof fn rates_are_rounded(mhz: int)
    requires
        mhz >= 0,
    ensures
        -500 <= 1000 * rounded_thousandths(mhz) - mhz <= 500,
        mhz % 1000 == 500 ==> rounded_thousandths(mhz) % 2 == 0,
{
}

/// The mode that is taken is the first preferred one, and the first of all where
/// none is.
pub proof fn the_preferred_mode_is_taken(modes: Seq<ModeInfo>, at: int, i: int)
    requires
        is_chosen_mode(modes, at),
    ensures
        0 <= at < modes.len(),
        0 <= i < modes.len() && modes[i].preferred ==> modes[at].preferred && at <= i,
        !modes[at].preferred ==> at == 0,
{
}

/// The connectors of all devices come in the order of the devices, and a device
/// that could not be read adds none.
pub proof fn scans_are_joined_in_order(scans: Seq<Option<Vec<ConnectorInfo>>>, upto: int)
    requires
        0 < upto <= scans.len(),
    ensures
        scans[upto - 1] is None ==> joined_scans(scans, upto) == joined_scans(scans, upto - 1),
        scans[upto - 1] matches Some(found) ==> joined_scans(scans, upto).len() == joined_scans(
            scans,
            upto - 1,
        ).len() + found@.len() && joined_scans(scans, upto).skip(
            joined_scans(scans, upto - 1).len() as int,
        ) == found@ && joined_scans(scans, upto).take(joined_scans(scans, upto - 1).len() as int)
            == joined_scans(scans, upto - 1),
{
    let before = joined_scans(scans, upto - 1);
    let after = joined_scans(scans, upto);
    if let Some(found) = scans[upto - 1] {
        assert(after.skip(before.len() as int) =~= found@);
        assert(after.take(before.len() as int) =~= before);
    } else {
        assert(after =~= before);
    }
}

/// A number that cannot be read is refused for its reason.
pub proof fn numbers_are_refused_for_their_reason(arg: Seq<char>, name: Seq<char>)
    ensures
        id_of(None) == Err::<int, Seq<char>>("missing window id"@),
        number_of(None, name) == Err::<int, Seq<char>>("missing "@ + name),
        read_unsigned(arg, u64::MAX as int) matches Ok(n) ==> id_of(Some(arg)) == Ok::<
            int,
            Seq<char>,
        >(n),
        read_signed(arg, i32::MAX as int) matches Ok(n) ==> number_of(Some(arg), name) == Ok::<
            int,
            Seq<char>,
        >(n),
        arg.len() == 0 ==> id_of(Some(arg)) == Err::<int, Seq<char>>(
            "invalid window id: "@ + "cannot parse integer from empty string"@,
        ),
        read_unsigned(arg, u64::MAX as int) == Err::<int, NumberError>(NumberError::InvalidDigit)
            ==> id_of(Some(arg)) == Err::<int, Seq<char>>(
            "invalid window id: "@ + "invalid digit found in string"@,
        ),
        read_unsigned(arg, u64::MAX as int) == Err::<int, NumberError>(NumberError::TooLarge)
            ==> id_of(Some(arg)) == Err::<int, Seq<char>>(
            "invalid window id: "@ + "number too large to fit in target type"@,
        ),
{
}

/// What went wrong is told: the compositor's own message, the reason why it could
/// not be asked, or that its answer was another.
pub proof fn failures_are_told(message: String, reason: String, lead: Seq<char>)
    ensures
        reply_error(Ok(IpcResponse::Error { message }), lead) == "compositor error: "@ + message@,
        reply_error(Ok(IpcResponse::Done), lead) == "unexpected response from compositor"@,
        reply_error(Err(reason), lead) == lead + reason@,
{
}

/// A mode is shown with its size, its whole rate and whether it is preferred.
pub proof fn modes_are_shown_with_their_rate(m: ModeInfo)
    ensures
        m.preferred ==> mode_text(m) == decimal(m.width as int) + "x"@ + decimal(m.height as int)
            + " @ "@ + decimal(rounded_thousandths(m.refresh_mhz as int)) + " Hz"@
            + " (preferred)"@,
        !m.preferred ==> mode_text(m) == decimal(m.width as int) + "x"@ + decimal(m.height as int)
            + " @ "@ + decimal(rounded_thousandths(m.refresh_mhz as int)) + " Hz"@,
        m.refresh_mhz % 1000 == 0 ==> refresh_setting(m) == decimal(m.refresh_mhz as int / 1000),
        m.refresh_mhz % 1000 != 0 ==> refresh_setting(m) == m.refresh_tenths@,
{
    reveal_strlit("");
    if !m.preferred {
        let text = decimal(m.width as int) + "x"@ + decimal(m.height as int) + " @ "@ + decimal(
            rounded_thousandths(m.refresh_mhz as int),
        ) + " Hz"@;
        assert(text + ""@ =~= text);
    }
}

/// Outputs are shown one after the other, with an empty line between them: the
/// name, the resolution and the scale of each.
pub proof fn outputs_are_shown_one_by_one(o: OutputInfo, scale: Seq<char>, at: int)
    ensures
        at == 0 ==> output_info_lines(o, scale, at).len() == 3 && output_info_lines(o, scale, at)[0]
            == "Output: "@ + o.name@,
        at > 0 ==> output_info_lines(o, scale, at).len() == 4 && output_info_lines(o, scale, at)[0]
            == ""@ && output_info_lines(o, scale, at)[1] == "Output: "@ + o.name@,
        at >= 0 ==> output_info_lines(o, scale, at).last() == "  Scale: "@ + scale,
        at >= 0 ==> output_info_lines(o, scale, at)[output_info_lines(o, scale, at).len() - 2]
            == "  Resolution: "@ + decimal(o.width as int) + "x"@ + decimal(o.height as int),
{
}

/// A connector is shown with its name first, then its type, make and model, and
/// its modes in their order at the end.
pub proof fn connectors_are_shown_with_all_their_modes(c: ConnectorInfo, i: int)
    ensures
        human_lines(c, 0)[0] == "Output: "@ + c.name@,
        human_lines(c, 0)[1] == "  Type: "@ + c.connector_type@,
        human_lines(c, 0)[2] == "  Make:  "@ + c.make@,
        human_lines(c, 0)[3] == "  Model: "@ + c.model@,
        human_lines(c, 0).len() >= 5 + c.modes@.len(),
        0 <= i < c.modes@.len() ==> human_lines(c, 0)[human_lines(c, 0).len() - c.modes@.len() + i]
            == "    "@ + mode_text(c.modes@[i]),
{
    let tail = mode_lines("    "@, c.modes@);
    let all = human_lines(c, 0);
    if 0 <= i < c.modes@.len() {
        assert(all[all.len() - tail.len() + i] == tail[i]);
    }
}

/// A connector in the format of the configuration begins with its name, has the
/// mode that was taken, and ends with a comma unless it is the last.
pub proof fn connectors_are_written_for_the_configuration(
    c: ConnectorInfo,
    at: Option<usize>,
    last: bool,
)
    requires
        at matches Some(i) ==> i < c.modes@.len(),
    ensures
        lua_lines(c, at, last)[0] == "    {"@,
        lua_lines(c, at, last)[1] == "        name = \""@ + c.name@ + "\","@,
        at matches Some(i) ==> lua_lines(c, at, last)[2] == "        mode = { width = "@ + decimal(
            c.modes@[i as int].width as int,
        ) + ", height = "@ + decimal(c.modes@[i as int].height as int) + ", refresh = "@
            + refresh_setting(c.modes@[i as int]) + " },"@,
        last ==> lua_lines(c, at, last).last() == "    }"@,
        !last ==> lua_lines(c, at, last).last() == "    },"@,
{
}

/// A picture that was written is reported with its size and its file.
pub proof fn written_pictures_are_reported(width: u32, height: u32, path: Seq<char>)
    ensures
        saved_message(width, height, path) == "Screenshot ("@ + decimal(width as int) + "x"@
            + decimal(height as int) + ") saved to "@ + path,
{
}

/// The size of a screen is shown only where it is known and not zero.
pub proof fn only_known_sizes_are_shown(lead: Seq<char>, w: u32, h: u32)
    ensures
        size_lines(lead, None).len() == 0,
        w == 0 || h == 0 ==> size_lines(lead, Some((w, h))).len() == 0,
        w > 0 && h > 0 ==> size_lines(lead, Some((w, h))) == seq![
            lead + "Physical size: "@ + decimal(w as int) + "x"@ + decimal(h as int) + " mm"@,
        ],
{
}

} // verus!
