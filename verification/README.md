# libghostty-vt

Safe Rust on top of `libghostty-vt`, the terminal emulation engine of Ghostty, which has a C
interface. The library is verified with [Verus](https://github.com/verus-lang/verus): every function
states what it does in `requires` and `ensures` clauses, and Verus proves that it does.

## How the engine is called

The library does not link to the engine. An operation that asks the engine for something takes the
call as a function value. Its contract says what the call is handed, and what comes of every answer
that it may give. So nothing is assumed of the engine beyond the few conditions that a contract
spells out, and the same code runs against the engine and against scripted answers.

```rust
let mut terminal: Terminal = Terminal::new(options, engine::terminal_new)?;
terminal.vt_write(b"Hello, \x1b[1;32mworld\x1b[0m!\r\n", engine::terminal_vt_write);
let cols = terminal.cols(engine::terminal_get::<u16>)?;
```

Where the order of calls matters (input events, encoders, handlers of the terminal), they are also
handed a value that stands for the engine, and give it back as they left it. The contracts say which
call sees it after which. The real engine keeps its state to itself, so that `()` stands for it; a
test may let it be a list of the calls so far.

## Layout

* `src/` is the verified library.
  * `error`, `reply`, `buffer`, `memory` and `abi`: result codes, answers, buffers and allocators.
  * `terminal`, `screen`, `style`, `render`, `fmt`, `key`, `mouse`, `osc`, `sgr`, `focus`, `paste`,
    `kitty`, `sys` and `build_info`: the operations of the engine's objects.
  * `lowlevel`: the same objects without any decoding of numbers.
  * `png_image`: PNG images as 8-bit RGBA pixels.
  * `ghostling`: the decisions of a small terminal emulator, that is, what to draw next, which input
    events to encode, what follows from a read or a write, and how the shell's life goes.
* `tests/` holds the library's tests. They answer for the engine.
* `app/` is the emulator itself: the declarations of the C interface, the window, and the
  pseudo-terminal.

## What is trusted

Verus believes the contracts of six small functions that call other code: `Vec::capacity`,
`char::from_u32`, `String::from_utf8`, two functions of the `png` crate and one of `macroquad`. Each
says in its documentation what is claimed.
