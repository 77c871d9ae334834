//! Theos kernel core: the VGA text console, interrupt descriptors and
//! the decisions behind interrupt handling and the boot and panic screens.
//! Port and memory-mapped I/O stays with the caller; every function here
//! computes on plain values.

pub mod drivers;
pub mod idt;
pub mod interrupts;

use vstd::prelude::*;
use vstd::string::StringSliceAdditionalSpecFns;
use crate::drivers::vga::{
    BUFFER_CELLS, Color, ScreenWriter, cleared, decimal, color_attribute, put_bytes, screen_wf,
    lemma_put_bytes_append,
};

verus! {

/// The line the kernel prints once it has taken over from the bootloader.
pub const BOOT_BANNER: &'static str = "Theos Kernel v0.1.0 Successfully Loaded!\n";

/// Title block of the panic screen, up to the fault details.
pub const PANIC_HEADER: &'static str = "================================================================================\npanicpanicpanic - KERNEL PANIC - panicpanicpanic\n--------------------------------------------------------------------------------\n\n  THEOS has encountered a fatal exception and cannot continue.\n  The kernel has been halted to prevent damage to your system.\n\n--------------------------------------------------------------------------------\n";

/// Label in front of the source location where the panic arose.
pub const LOCATION_LABEL: &'static str = "  FAULT LOCATION : ";

/// Label in front of the panic message.
pub const REASON_LABEL: &'static str = "  FAULT REASON   : ";

/// Shown in place of a message that is not a plain string literal.
pub const FORMATTED_REASON: &'static str = "A formatted runtime assertion failed. (Check source code for macro specifics)";

/// Separates the source file from the line number.
pub const LINE_SEPARATOR: &'static str = ":";

/// A line break.
pub const LINE_END: &'static str = "\n";

/// Closing block of the panic screen.
pub const PANIC_FOOTER: &'static str = "\n\n--------------------------------------------------------------------------------\n\n  PROCESSOR STATE : HALTED\n  INTERRUPTS      : DISABLED\n  RECOVERY        : NOT POSSIBLE\n\n  If this is your first time seeing this screen, restart your machine.\n  If this screen appears again, your kernel is corrupted.\n\n================================================================================\n  * SYSTEM HALTED *\n================================================================================\n";

/// The bytes of an optional string.
pub open spec fn optional_bytes(s: Option<&str>) -> Option<Seq<u8>> {
    match s {
        Some(t) => Some(t.spec_bytes()),
        None => None,
    }
}

/// The bytes of an optional source location: the file and the line.
pub open spec fn optional_location(l: Option<(&str, u32)>) -> Option<(Seq<u8>, nat)> {
    match l {
        Some((file, line)) => Some((file.spec_bytes(), line as nat)),
        None => None,
    }
}

/// The full text of the panic screen for a fault location (the source
/// file and line, if known) and a message (if it is a plain string). The
/// location reads `file:line`, the line in decimal.
pub open spec fn panic_report(location: Option<(Seq<u8>, nat)>, message: Option<Seq<u8>>) -> Seq<u8> {
    let location = match location {
        Some((file, line)) => LOCATION_LABEL.spec_bytes() + file + LINE_SEPARATOR.spec_bytes()
            + decimal(line) + LINE_END.spec_bytes(),
        None => Seq::empty(),
    };
    let reason = match message {
        Some(m) => m,
        None => FORMATTED_REASON.spec_bytes(),
    };
    PANIC_HEADER.spec_bytes() + location + REASON_LABEL.spec_bytes() + reason
        + PANIC_FOOTER.spec_bytes()
}

/// The report shows the location line whenever a location is given,
/// whatever the message: it is the report without a location with the
/// label, the file, `:`, the decimal line number and a line break put in
/// right after the header.
pub proof fn lemma_panic_report_location(file: Seq<u8>, line: nat, message: Option<Seq<u8>>)
    ensures
        panic_report(Some((file, line)), message) == PANIC_HEADER.spec_bytes()
            + LOCATION_LABEL.spec_bytes() + file + LINE_SEPARATOR.spec_bytes() + decimal(line)
            + LINE_END.spec_bytes() + panic_report(None, message).skip(
            PANIC_HEADER.spec_bytes().len() as int,
        ),
        panic_report(None, message).take(PANIC_HEADER.spec_bytes().len() as int)
            == PANIC_HEADER.spec_bytes(),
        panic_report(None, message).skip(PANIC_HEADER.spec_bytes().len() as int).take(
            REASON_LABEL.spec_bytes().len() as int,
        ) == REASON_LABEL.spec_bytes(),
{
    let h = PANIC_HEADER.spec_bytes();
    let r = REASON_LABEL.spec_bytes();
    let reason = match message {
        Some(m) => m,
        None => FORMATTED_REASON.spec_bytes(),
    };
    let none = panic_report(None, message);
    assert(none =~= h + (r + reason + PANIC_FOOTER.spec_bytes()));
    assert(none.skip(h.len() as int) =~= r + reason + PANIC_FOOTER.spec_bytes());
    assert(none.take(h.len() as int) =~= h);
    assert((r + reason + PANIC_FOOTER.spec_bytes()).take(r.len() as int) =~= r);
    assert(panic_report(Some((file, line)), message) =~= h + LOCATION_LABEL.spec_bytes() + file
        + LINE_SEPARATOR.spec_bytes() + decimal(line) + LINE_END.spec_bytes() + none.skip(
        h.len() as int,
    ));
}

/// Clears the screen in white on black and prints the boot banner; the
/// writer is handed back for further output.
pub fn show_boot_banner(screen: &mut [u16; BUFFER_CELLS]) -> (w: ScreenWriter)
    ensures
        w.attribute() == color_attribute(Color::White, Color::Black),
        w.on(final(screen)@) == put_bytes(
            cleared(color_attribute(Color::White, Color::Black)),
            color_attribute(Color::White, Color::Black),
            BOOT_BANNER.spec_bytes(),
        ),
        screen_wf(w.on(final(screen)@)),
{
    let mut writer = ScreenWriter::new(Color::White, Color::Black);
    writer.clear_screen(screen);
    writer.write_string(screen, BOOT_BANNER);
    writer
}

/// Draws the panic screen: the screen is cleared in light red on black
/// and the report for the given fault location (source file and line
/// number) and message is written from the top-left cell.
pub fn show_panic_screen(
    screen: &mut [u16; BUFFER_CELLS],
    location: Option<(&str, u32)>,
    message: Option<&str>,
)
    ensures
        final(screen)@ == put_bytes(
            cleared(color_attribute(Color::LightRed, Color::Black)),
            color_attribute(Color::LightRed, Color::Black),
            panic_report(optional_location(location), optional_bytes(message)),
        ).cells,
{
    let mut w = ScreenWriter::new(Color::LightRed, Color::Black);
    w.clear_screen(screen);
    let ghost attr = w.attribute();
    let ghost start = w.on(screen@);
    proof {
        assert(Seq::<u8>::empty() + PANIC_HEADER.spec_bytes() =~= PANIC_HEADER.spec_bytes());
        lemma_put_bytes_append(start, attr, Seq::empty(), PANIC_HEADER.spec_bytes());
    }
    w.write_string(screen, PANIC_HEADER);
    let ghost mut written = PANIC_HEADER.spec_bytes();
    if let Some((f, line)) = location {
        w.write_string(screen, LOCATION_LABEL);
        proof {
            lemma_put_bytes_append(start, attr, written, LOCATION_LABEL.spec_bytes());
            written = written + LOCATION_LABEL.spec_bytes();
        }
        w.write_string(screen, f);
        proof {
            lemma_put_bytes_append(start, attr, written, f.spec_bytes());
            written = written + f.spec_bytes();
        }
        w.write_string(screen, LINE_SEPARATOR);
        proof {
            lemma_put_bytes_append(start, attr, written, LINE_SEPARATOR.spec_bytes());
            written = written + LINE_SEPARATOR.spec_bytes();
        }
        w.write_decimal(screen, line);
        proof {
            lemma_put_bytes_append(start, attr, written, decimal(line as nat));
            written = written + decimal(line as nat);
        }
        w.write_string(screen, LINE_END);
        proof {
            lemma_put_bytes_append(start, attr, written, LINE_END.spec_bytes());
            written = written + LINE_END.spec_bytes();
        }
    }
    w.write_string(screen, REASON_LABEL);
    proof {
        lemma_put_bytes_append(start, attr, written, REASON_LABEL.spec_bytes());
        written = written + REASON_LABEL.spec_bytes();
    }
    if let Some(m) = message {
        w.write_string(screen, m);
        proof {
            lemma_put_bytes_append(start, attr, written, m.spec_bytes());
            written = written + m.spec_bytes();
        }
    } else {
        w.write_string(screen, FORMATTED_REASON);
        proof {
            lemma_put_bytes_append(start, attr, written, FORMATTED_REASON.spec_bytes());
            written = written + FORMATTED_REASON.spec_bytes();
        }
    }
    w.write_string(screen, PANIC_FOOTER);
    proof {
        lemma_put_bytes_append(start, attr, written, PANIC_FOOTER.spec_bytes());
        written = written + PANIC_FOOTER.spec_bytes();
        let report = panic_report(optional_location(location), optional_bytes(message));
        assert(written =~= report);
    }
}

} // verus!
