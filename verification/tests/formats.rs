use libghostty_vt::buffer::BufReply;
use libghostty_vt::build_info::{
    build_version, major_version, minor_version, optimization_mode, optimize_mode, patch_version,
    supports_kitty_graphics, supports_simd, supports_tmux_control_mode, version_string, BuildInfo,
    OptimizeMode,
};
use libghostty_vt::error::Error;
use libghostty_vt::fmt::{AllocReply, Format, Formatter, FormatterOptions, RawFormatterOptions};
use libghostty_vt::memory::{Allocator, NewReply};
use libghostty_vt::osc::Parser;
use libghostty_vt::reply::Reply;
use libghostty_vt::terminal::{Options, Terminal};
use std::cell::RefCell;

const HTML: FormatterOptions = FormatterOptions { format: Format::Html, trim: true, unwrap: false };

fn terminal() -> Terminal {
    let opts = Options { cols: 80, rows: 24, max_scrollback: 0 };
    Terminal::new(opts, |_, _| NewReply { code: 0, raw: 1 }).unwrap()
}

fn formatter(terminal: &Terminal) -> Formatter<'_> {
    Formatter::new(terminal, HTML, |alloc, terminal, opts| {
        assert_eq!((alloc, terminal), (0, 1));
        assert_eq!(opts, RawFormatterOptions { emit: 2, trim: true, unwrap: false });
        NewReply { code: 0, raw: 0x30 }
    })
    .unwrap()
}

#[test]
fn formatters_are_made_for_a_terminal() {
    let term = terminal();
    assert_eq!(formatter(&term).as_raw(), 0x30);
    let failed = Formatter::new_with_alloc(&Allocator::from_raw(8), &term, HTML, |alloc, _, _| {
        assert_eq!(alloc, 8);
        NewReply { code: -1, raw: 0 }
    });
    assert_eq!(failed.unwrap_err(), Error::OutOfMemory);
}

#[test]
fn output_formats_have_numbers() {
    assert_eq!(Format::Plain.code(), 0);
    assert_eq!(Format::Vt.code(), 1);
    assert_eq!(Format::Html.code(), 2);
    assert_eq!(Format::from_code(1), Ok(Format::Vt));
    assert_eq!(Format::from_code(3), Err(Error::InvalidValue));
}

#[test]
fn output_is_allocated() {
    let term = terminal();
    let mut fmt = formatter(&term);
    let bytes = fmt
        .format_alloc(Some(&Allocator::from_raw(8)), |raw, alloc| {
            assert_eq!((raw, alloc), (0x30, 8));
            AllocReply { code: 0, raw: 0x500, len: 12 }
        })
        .unwrap();
    assert_eq!((bytes.as_raw(), bytes.len(), bytes.allocator_raw()), (0x500, 12, 8));
    let own = fmt.format_alloc(None, |_, alloc| AllocReply { code: 0, raw: 1 + alloc, len: 0 });
    assert_eq!(own.unwrap().allocator_raw(), 0);
    let null = fmt.format_alloc(None, |_, _| AllocReply { code: 0, raw: 0, len: 3 });
    assert_eq!(null.unwrap_err(), Error::OutOfMemory);
    let failed = fmt.format_alloc(None, |_, _| AllocReply { code: -2, raw: 1, len: 3 });
    assert_eq!(failed.unwrap_err(), Error::InvalidValue);
}

#[test]
fn output_goes_to_a_buffer() {
    let term = terminal();
    let mut fmt = formatter(&term);
    let mut buf = [b'.'; 6];
    let res = fmt.format_buf(&mut buf, |raw, room| {
        assert_eq!((raw, room), (0x30, 6));
        BufReply { code: 0, len: 4, out: b"text".to_vec() }
    });
    assert_eq!(res, Ok(4));
    assert_eq!(&buf, b"text..");
    let res = fmt.format_buf(&mut buf, |_, _| BufReply { code: -3, len: 40, out: vec![] });
    assert_eq!(res, Err(Error::OutOfSpace { required: 40 }));
}

#[test]
fn the_length_of_output_is_asked_without_a_buffer() {
    let term = terminal();
    let mut fmt = formatter(&term);
    let ask = |code, len| {
        move |_: usize, room: usize| {
            assert_eq!(room, 0);
            BufReply { code, len, out: Vec::<u8>::new() }
        }
    };
    assert_eq!(fmt.format_len(ask(-3, 40)), Ok(40));
    assert_eq!(fmt.format_len(ask(0, 0)), Err(Error::InvalidValue));
    assert_eq!(fmt.format_len(ask(-1, 5)), Err(Error::OutOfMemory));
}

#[test]
fn the_measured_size_is_the_one_that_is_needed() {
    let term = terminal();
    let mut fmt = formatter(&term);
    let format = |_: usize, room: usize| {
        let output = b"ghost".to_vec();
        if output.len() <= room {
            BufReply { code: 0, len: output.len(), out: output }
        } else {
            BufReply { code: -3, len: output.len(), out: vec![] }
        }
    };
    let size = fmt.format_len(format).unwrap();
    assert_eq!(size, 5);
    for room in 0..8 {
        let mut buf = vec![b'.'; room];
        let res = fmt.format_buf(&mut buf, format);
        if room >= size {
            assert_eq!(res, Ok(size));
            assert_eq!(&buf[..size], b"ghost");
            assert!(buf[size..].iter().all(|&byte| byte == b'.'));
        } else {
            assert_eq!(res, Err(Error::OutOfSpace { required: size }));
            assert!(buf.iter().all(|&byte| byte == b'.'));
        }
    }
}

#[test]
fn osc_bytes_make_a_command() {
    let mut parser = Parser::new(|_| NewReply { code: 0, raw: 0x20 }).unwrap();
    let bytes = RefCell::new(Vec::new());
    for byte in *b"0;title" {
        parser.next_byte(byte, |raw, byte| {
            assert_eq!(raw, 0x20);
            bytes.borrow_mut().push(byte);
        });
    }
    assert_eq!(*bytes.borrow(), b"0;title");
    let command = parser.end(0x07, |raw, terminator| {
        assert_eq!((raw, terminator), (0x20, 0x07));
        0x99
    });
    assert_eq!(
        command.command_type(|raw| {
            assert_eq!(raw, 0x99);
            1
        }),
        1
    );
    parser.reset(|raw| assert_eq!(raw, 0x20));
}

fn asked<T>(tag: BuildInfo, code: i32, value: T) -> impl FnOnce(BuildInfo) -> Reply<T> {
    move |info| {
        assert_eq!(info, tag);
        Reply { code, value }
    }
}

#[test]
fn features_are_asked_for() {
    assert_eq!(supports_simd(asked(BuildInfo::Simd, 0, true)), Ok(true));
    assert_eq!(supports_kitty_graphics(asked(BuildInfo::KittyGraphics, 0, false)), Ok(false));
    assert_eq!(supports_tmux_control_mode(asked(BuildInfo::TmuxControlMode, 0, true)), Ok(true));
    assert_eq!(supports_simd(asked(BuildInfo::Simd, -2, true)), Err(Error::InvalidValue));
}

#[test]
fn optimization_modes_have_numbers() {
    let all = [
        OptimizeMode::Debug,
        OptimizeMode::ReleaseSafe,
        OptimizeMode::ReleaseSmall,
        OptimizeMode::ReleaseFast,
    ];
    for (code, mode) in all.into_iter().enumerate() {
        let code = code as u32;
        assert_eq!(optimize_mode(asked(BuildInfo::Optimize, 0, code)), Ok(mode));
        assert_eq!(optimization_mode(asked(BuildInfo::Optimize, 0, code)), mode);
        assert_eq!(mode.code(), code);
    }
    assert_eq!(optimize_mode(asked(BuildInfo::Optimize, 0, 4)), Err(Error::InvalidValue));
}

#[test]
fn versions_are_asked_for() {
    assert_eq!(major_version(asked(BuildInfo::VersionMajor, 0, 1)), Ok(1));
    assert_eq!(minor_version(asked(BuildInfo::VersionMinor, 0, 2)), Ok(2));
    assert_eq!(patch_version(asked(BuildInfo::VersionPatch, 0, 3)), Ok(3));
    assert_eq!(
        version_string(asked(BuildInfo::VersionString, 0, b"1.2.3".to_vec())),
        Ok("1.2.3".to_string())
    );
    assert_eq!(
        build_version(asked(BuildInfo::VersionBuild, 0, b"abc".to_vec())),
        Ok("abc".to_string())
    );
    assert_eq!(
        version_string(asked(BuildInfo::VersionString, -1, Vec::new())),
        Err(Error::OutOfMemory)
    );
}

#[test]
fn build_information_agrees() {
    let numbers = |tag: BuildInfo| Reply {
        code: 0,
        value: match tag {
            BuildInfo::VersionMajor => 1,
            BuildInfo::VersionMinor => 20,
            BuildInfo::VersionPatch => 3,
            _ => unreachable!(),
        },
    };
    let text = version_string(|_| Reply { code: 0, value: b"1.20.3-dev+abcdef".to_vec() }).unwrap();
    let mut parts = text.split(['.', '-']);
    let mut part = || parts.next().unwrap().parse::<usize>();
    assert_eq!(major_version(numbers), Ok(part().unwrap()));
    assert_eq!(minor_version(numbers), Ok(part().unwrap()));
    assert_eq!(patch_version(numbers), Ok(part().unwrap()));
    let simd = |_: BuildInfo| Reply { code: 0, value: true };
    assert_eq!(supports_simd(simd), supports_simd(simd));
}
