# redactor

A document redaction tool (PDFs, Word documents converted to PDF, and images) whose
decisions are verified with Verus.

- `src/` is the verified library: the editor session (files, redaction boxes, search
  hits, dialogs), the PDF viewer's state, loading and searching PDFs through pdfium,
  the home screen's file list, burning redaction boxes into page pixels, assembling
  the exported PDF, classifying files by extension, and the pandoc command line.
- `app/` is the egui program around it: drawing, mouse geometry (floating point),
  binding the pdfium library and rendering pages, file dialogs, pandoc, files on
  disk, logging.
- `tests/` exercises the library.
