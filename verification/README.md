# wiborade

A tool for building a spreadsheet index of scanned letters: open a folder of
photographs and its workbook, walk through the pictures, and fill in one
workbook row per picture.

- `src/` is the library, verified with Verus: file names and paths, the
  folder listing, reading cells as text, writing rows into a workbook held in
  memory (`umya-spreadsheet`), the EXIF thumbnail and picture turns (`image`,
  `kamadak-exif`), and the window's state machine (`gui`), which answers each
  event with the work it needs done. `src/laws.rs` states and proves the
  properties that span several functions.
- `app/` is the desktop program (`iced`): it draws the state, reads and
  writes files, opens the folder picker and loads pictures, and feeds the
  outcomes back to the library as events.
- `tests/` runs the library on concrete values.
