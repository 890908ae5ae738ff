//! Debug console (UART, VGA, semihosting, etc.).

use vstd::prelude::*;

verus! {

/// A byte-oriented debug console.
pub trait Console {
    /// Emit one byte.
    fn write_byte(&self, byte: u8);

    /// Emit the UTF-8 bytes of `s`, first to last.
    fn write_str(&self, s: &str) {
        let bytes = s.as_bytes();
        let mut i: usize = 0;
        while i < bytes.len()
            invariant
                i <= bytes@.len(),
            decreases bytes@.len() - i,
        {
            self.write_byte(bytes[i]);
            i = i + 1;
        }
    }

    /// Emit `s` followed by a newline.
    fn writeln(&self, s: &str) {
        self.write_str(s);
        self.write_byte(0x0Au8);  // '\n'
    }
}

} // verus!
