# Smart door lock

A server that opens a door for people whose faces it knows. A picture comes from a camera or
from an upload; a face-recognition service says who is on it; whoever is recognised is let in.
Everything that happens is logged and shown on a dashboard.

`src/` is the library, verified with Verus: it decides what is asked of whom, what each reply
means, what is logged and answered, and it writes the dashboard page. It makes no network
call. Where several calls follow each other, the library hands out the next one and takes back
what came of it:

- `startup`: making sure that the face collection exists, and loading it;
- `forms`: reading the forms that are sent in;
- `access`: from a picture to an answer, with the laws of every check in `access_laws`;
- `enrolment`: adding a person.

Under them stand the state (`state`, `roster`, `access_log`, `settings`), the commands to the
door (`door`), the replies (`api`, `dashboard`, `page`), the face-recognition service's data
(`rekognition`), and moments, dates, statuses and text (`time`, `calendar`, `status`, `text`).

`app/` is the server around it: it reads the environment, makes the calls and serves HTTP.
Confidences and thresholds are floating-point numbers there; the library carries their
encodings.
