use vstd::prelude::*;

verus! {

/// Cuts a stream of text lines into games. A game's text is its lines, each
/// ending in a newline, up to the second blank line; that line ends the game
/// and belongs to none.
pub struct GameFramer {
    buffer: String,
    empty: u8,
}

impl View for GameFramer {
    /// The text gathered for the current game, and the blank lines in it.
    type V = (Seq<char>, nat);

    closed spec fn view(&self) -> (Seq<char>, nat) {
        (self.buffer@, self.empty as nat)
    }
}

impl GameFramer {
    pub closed spec fn wf(&self) -> bool {
        self.empty < 2
    }

    /// A framer with no text gathered.
    pub fn new() -> (r: GameFramer)
        ensures
            r.wf(),
            r@ == (Seq::<char>::empty(), 0nat),
    {
        GameFramer { buffer: String::new(), empty: 0 }
    }

    /// Takes the next line, without its line ending. Returns the text of the
    /// game that this line ends, if it is the second blank line of one.
    pub fn push_line(&mut self, line: &str) -> (r: Option<String>)
        requires
            old(self).wf(),
        ensures
            final(self).wf(),
            ({
                let (text, empty) = old(self)@;
                if line@.len() == 0 && empty == 1 {
                    &&& r matches Some(g) && g@ == text
                    &&& final(self)@ == (Seq::<char>::empty(), 0nat)
                } else {
                    &&& r is None
                    &&& final(self)@ == (text + line@ + seq!['\n'], if line@.len() == 0 {
                        empty + 1
                    } else {
                        empty
                    })
                }
            }),
    {
        if line.is_empty() {
            self.empty = self.empty + 1;
        }
        if self.empty == 2 {
            let mut game = String::new();
            std::mem::swap(&mut game, &mut self.buffer);
            self.empty = 0;
            Some(game)
        } else {
            self.buffer.append(line);
            let newline = "\n";
            proof {
                reveal_strlit("\n");
            }
            self.buffer.append(newline);
            None
        }
    }
}

} // verus!
